use vstd::prelude::*;

verus! {

/// # NSStringEncoding
/// A constant that identifies a text encoding, in the numbering the foreign
/// string class understands.
///
/// `NSUTF16StringEncoding` is missing, but, it's the same as
/// `NSUnicodeStringEncoding`.
#[derive(Clone, Copy, Debug, PartialEq, Eq, Hash)]
pub enum NSStringEncoding {
    /// 7-bit ASCII encoding
    NSASCIIStringEncoding,
    /// 8-bit Latin-1 encoding (ISO 8859-1)
    NSISOLatin1StringEncoding,
    /// 8-bit Latin-2 encoding (ISO 8859-2)
    NSISOLatin2StringEncoding,
    /// 8-bit Classic Macintosh Roman encoding
    NSMacOSRomanStringEncoding,
    /// 8-bit ASCII with NEXTSTEP extensions
    NSNEXTSTEPStringEncoding,
    /// 7-bit lossy verbose ASCII that represents all Unicode characters
    NSNonLossyASCIIStringEncoding,
    /// 8-bit Adobe Symbol Encoding
    NSSymbolStringEncoding,
    /// 8-bit Japanese encoding for mail (ISO 2022-JP)
    NSISO2022JPStringEncoding,
    /// 8-bit EUC encoding for Japanese
    NSJapaneseEUCStringEncoding,
    /// 8-bit Shift-JIS encoding for Japanese
    NSShiftJISStringEncoding,
    /// 8-bit Unicode Transformation Format (UTF-8)
    NSUTF8StringEncoding,
    /// 16-bit Unicode big-endian specific encoding (UTF-16)
    NSUTF16BigEndianStringEncoding,
    /// 16-bit Unicode little-endian specific encoding (UTF-16)
    NSUTF16LittleEndianStringEncoding,
    /// 16-bit standard Unicode encoding (UTF-16)
    /// Also known as `NSUnicodeStringEncoding`
    NSUnicodeStringEncoding,
    /// 32-bit Unicode big-endian specific encoding (UTF-32)
    NSUTF32BigEndianStringEncoding,
    /// 32-bit Unicode little-endian specific encoding (UTF-32)
    NSUTF32LittleEndianStringEncoding,
    /// 32-bit non-specific endian Unicode encoding (UTF-32)
    NSUTF32StringEncoding,
    /// Microsoft Windows codepage 1250 encoding (WinLatin2)
    NSWindowsCP1250StringEncoding,
    /// Microsoft Windows codepage 1251 encoding for Cyrillic text
    NSWindowsCP1251StringEncoding,
    /// Microsoft Windows codepage 1252 encoding (WinLatin1)
    NSWindowsCP1252StringEncoding,
    /// Microsoft Windows codepage 1253 encoding for Greek text
    NSWindowsCP1253StringEncoding,
    /// Microsoft Windows codepage 1254 encoding for Turkish text
    NSWindowsCP1254StringEncoding,
}

/// The numeric constant the foreign string class assigns to each encoding.
pub open spec fn spec_encoding_value(e: NSStringEncoding) -> usize {
    match e {
        NSStringEncoding::NSASCIIStringEncoding => 1,
        NSStringEncoding::NSISOLatin1StringEncoding => 5,
        NSStringEncoding::NSISOLatin2StringEncoding => 9,
        NSStringEncoding::NSMacOSRomanStringEncoding => 30,
        NSStringEncoding::NSNEXTSTEPStringEncoding => 2,
        NSStringEncoding::NSNonLossyASCIIStringEncoding => 7,
        NSStringEncoding::NSSymbolStringEncoding => 6,
        NSStringEncoding::NSISO2022JPStringEncoding => 21,
        NSStringEncoding::NSJapaneseEUCStringEncoding => 3,
        NSStringEncoding::NSShiftJISStringEncoding => 8,
        NSStringEncoding::NSUTF8StringEncoding => 4,
        NSStringEncoding::NSUTF16BigEndianStringEncoding => 0x90000100,
        NSStringEncoding::NSUTF16LittleEndianStringEncoding => 0x94000100,
        NSStringEncoding::NSUnicodeStringEncoding => 10,
        NSStringEncoding::NSUTF32BigEndianStringEncoding => 0x98000100,
        NSStringEncoding::NSUTF32LittleEndianStringEncoding => 0x9c000100,
        NSStringEncoding::NSUTF32StringEncoding => 0x8c000100,
        NSStringEncoding::NSWindowsCP1250StringEncoding => 15,
        NSStringEncoding::NSWindowsCP1251StringEncoding => 11,
        NSStringEncoding::NSWindowsCP1252StringEncoding => 12,
        NSStringEncoding::NSWindowsCP1253StringEncoding => 13,
        NSStringEncoding::NSWindowsCP1254StringEncoding => 14,
    }
}

impl NSStringEncoding {
    /// The raw value passed across the dispatch boundary for this encoding.
    pub fn value(self) -> (r: usize)
        ensures
            r == spec_encoding_value(self),
    {
        match self {
            NSStringEncoding::NSASCIIStringEncoding => 1,
            NSStringEncoding::NSISOLatin1StringEncoding => 5,
            NSStringEncoding::NSISOLatin2StringEncoding => 9,
            NSStringEncoding::NSMacOSRomanStringEncoding => 30,
            NSStringEncoding::NSNEXTSTEPStringEncoding => 2,
            NSStringEncoding::NSNonLossyASCIIStringEncoding => 7,
            NSStringEncoding::NSSymbolStringEncoding => 6,
            NSStringEncoding::NSISO2022JPStringEncoding => 21,
            NSStringEncoding::NSJapaneseEUCStringEncoding => 3,
            NSStringEncoding::NSShiftJISStringEncoding => 8,
            NSStringEncoding::NSUTF8StringEncoding => 4,
            NSStringEncoding::NSUTF16BigEndianStringEncoding => 0x90000100,
            NSStringEncoding::NSUTF16LittleEndianStringEncoding => 0x94000100,
            NSStringEncoding::NSUnicodeStringEncoding => 10,
            NSStringEncoding::NSUTF32BigEndianStringEncoding => 0x98000100,
            NSStringEncoding::NSUTF32LittleEndianStringEncoding => 0x9c000100,
            NSStringEncoding::NSUTF32StringEncoding => 0x8c000100,
            NSStringEncoding::NSWindowsCP1250StringEncoding => 15,
            NSStringEncoding::NSWindowsCP1251StringEncoding => 11,
            NSStringEncoding::NSWindowsCP1252StringEncoding => 12,
            NSStringEncoding::NSWindowsCP1253StringEncoding => 13,
            NSStringEncoding::NSWindowsCP1254StringEncoding => 14,
        }
    }
}

} // verus!
