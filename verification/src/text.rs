use vstd::prelude::*;
use vstd::string::StringExecFns;
use vstd::utf8::{decode_utf8, valid_utf8};
use crate::format::{append_decimal, decimal_chars};

verus! {

/// The encoding that the IM server chose for the strings it sends.
#[derive(Clone, Copy, PartialEq, Eq, Structural, Debug)]
pub enum XimEncoding {
    /// `COMPOUND_TEXT`: the bytes must be converted to UTF-8 first.
    CompoundText,
    /// `UTF8_STRING`: the bytes are UTF-8 already.
    Utf8String,
    /// Any value that names neither.
    Unknown,
}

/// The encoding named by the raw value of `xcb_xim_encoding_t`
/// (`0` is `COMPOUND_TEXT`, `1` is `UTF8_STRING`).
pub open spec fn encoding_of_raw(value: u32) -> XimEncoding {
    if value == 0 {
        XimEncoding::CompoundText
    } else if value == 1 {
        XimEncoding::Utf8String
    } else {
        XimEncoding::Unknown
    }
}

impl XimEncoding {
    /// The encoding of a raw `xcb_xim_encoding_t` value.
    pub fn from_raw(value: u32) -> (r: XimEncoding)
        ensures
            r == encoding_of_raw(value),
    {
        if value == 0 {
            XimEncoding::CompoundText
        } else if value == 1 {
            XimEncoding::Utf8String
        } else {
            XimEncoding::Unknown
        }
    }

    /// Whether the bytes of a string in this encoding must go through the
    /// compound-text converter before they can be read as UTF-8.
    pub fn needs_conversion(&self) -> (r: bool)
        ensures
            r <==> *self == XimEncoding::CompoundText,
    {
        match self {
            XimEncoding::CompoundText => true,
            _ => false,
        }
    }
}

/// The UTF-8 bytes of a string that the IM server sent in `encoding`:
/// the bytes themselves for `UTF8_STRING`; for `COMPOUND_TEXT` what the
/// converter made of them, or nothing where it failed; nothing for any other
/// encoding.
pub open spec fn xim_text_bytes(
    encoding: XimEncoding,
    raw: Seq<u8>,
    converted: Option<Seq<u8>>,
) -> Seq<u8> {
    match encoding {
        XimEncoding::Utf8String => raw,
        XimEncoding::CompoundText => match converted {
            Some(bytes) => bytes,
            None => Seq::empty(),
        },
        XimEncoding::Unknown => Seq::empty(),
    }
}

/// The raw value `0` names `COMPOUND_TEXT`, `1` names `UTF8_STRING`, and
/// every other value names no known encoding; only compound text needs the
/// converter.
pub proof fn lemma_encoding_values(value: u32)
    ensures
        value == 0 ==> encoding_of_raw(value) == XimEncoding::CompoundText,
        value == 1 ==> encoding_of_raw(value) == XimEncoding::Utf8String,
        value > 1 ==> encoding_of_raw(value) == XimEncoding::Unknown,
{
}

/// A string in `UTF8_STRING` is read as it came; one in `COMPOUND_TEXT` is
/// read from what the converter made of it, and is empty where the
/// conversion failed; one in any other encoding is empty.
pub proof fn lemma_text_bytes_by_encoding(raw: Seq<u8>, converted: Option<Seq<u8>>)
    ensures
        xim_text_bytes(XimEncoding::Utf8String, raw, converted) == raw,
        converted matches Some(c) ==> xim_text_bytes(XimEncoding::CompoundText, raw, converted)
            == c,
        converted is None ==> xim_text_bytes(XimEncoding::CompoundText, raw, converted).len()
            == 0,
        xim_text_bytes(XimEncoding::Unknown, raw, converted).len() == 0,
{
}

/// The bytes of an optional converter result.
pub open spec fn converted_view(converted: Option<&[u8]>) -> Option<Seq<u8>> {
    match converted {
        Some(c) => Some(c@),
        None => None,
    }
}

/// What `String::from_utf8_lossy` makes of `bytes`.
pub uninterp spec fn utf8_lossy_decode(bytes: Seq<u8>) -> Seq<char>;

/// Calls `String::from_utf8_lossy` and takes the owned string. Its contract
/// claims that the result is a function of the bytes alone, and, as std
/// documents, that valid UTF-8 comes back decoded unchanged; what it makes of
/// invalid sequences (each replaced by U+FFFD) is left unsaid.
#[verifier::external_body]
fn string_from_utf8_lossy(bytes: &[u8]) -> (s: String)
    ensures
        s@ == utf8_lossy_decode(bytes@),
        valid_utf8(bytes@) ==> s@ == decode_utf8(bytes@),
{
    String::from_utf8_lossy(bytes).into_owned()
}

/// The text of a string that the IM server sent in `encoding`, as a Rust
/// string. `converted` is what the compound-text converter returned for
/// `raw` (`None` where it failed or was not called); it is read only for
/// `COMPOUND_TEXT`.
pub fn xim_encoding_to_utf8(encoding: XimEncoding, raw: &[u8], converted: Option<&[u8]>) -> (r:
    String)
    ensures
        r@ == utf8_lossy_decode(xim_text_bytes(encoding, raw@, converted_view(converted))),
        valid_utf8(xim_text_bytes(encoding, raw@, converted_view(converted))) ==> r@
            == decode_utf8(xim_text_bytes(encoding, raw@, converted_view(converted))),
{
    let empty: [u8; 0] = [];
    match encoding {
        XimEncoding::Utf8String => string_from_utf8_lossy(raw),
        XimEncoding::CompoundText => match converted {
            Some(bytes) => string_from_utf8_lossy(bytes),
            None => {
                let r = string_from_utf8_lossy(&empty);
                assert(empty@ =~= Seq::<u8>::empty());
                r
            },
        },
        XimEncoding::Unknown => {
            let r = string_from_utf8_lossy(&empty);
            assert(empty@ =~= Seq::<u8>::empty());
            r
        },
    }
}

/// What `{:?}` prints of a string: the text in double quotes, with the
/// characters that need it escaped.
pub uninterp spec fn str_debug_chars(text: Seq<char>) -> Seq<char>;

/// The text holds only printable ASCII characters other than `"` and `\`,
/// which `{:?}` prints as they are.
pub open spec fn is_plain_text(text: Seq<char>) -> bool {
    forall|i: int|
        0 <= i < text.len() ==> 0x20 <= (#[trigger] text[i]) as u32 <= 0x7e && text[i] != '"'
            && text[i] != '\\'
}

/// Formats the string with `{:?}`. Its contract claims that the result is a
/// function of the text alone, and that a text of printable ASCII characters
/// other than `"` and `\` comes out between double quotes unchanged; how
/// `{:?}` escapes other characters is left unsaid.
#[verifier::external_body]
fn debug_str(text: &str) -> (r: String)
    ensures
        r@ == str_debug_chars(text@),
        is_plain_text(text@) ==> r@ == seq!['"'] + text@ + seq!['"'],
{
    format!("{:?}", text)
}

/// The debug line of a preedit frame: its name, then its fields and values
/// as `{:?}` lists them; the field list is left open (no closing brace
/// follows the text).
pub open spec fn preedit_debug_chars(
    status: u32,
    caret: u32,
    chg_first: u32,
    chg_length: u32,
    text: Seq<char>,
) -> Seq<char> {
    "PreeditInfo { status: "@ + decimal_chars(status as nat) + ", caret: "@ + decimal_chars(
        caret as nat,
    ) + ", chg_first: "@ + decimal_chars(chg_first as nat) + ", chg_length: "@
        + decimal_chars(chg_length as nat) + ", text: "@ + str_debug_chars(text)
}

/// The debug line names each field once, in the order status, caret,
/// chg_first, chg_length, text, each followed by its own value in decimal
/// (the text by its `{:?}` form).
pub proof fn lemma_preedit_debug_fields(
    status: u32,
    caret: u32,
    chg_first: u32,
    chg_length: u32,
    text: Seq<char>,
)
    ensures
        preedit_debug_chars(status, caret, chg_first, chg_length, text) == "PreeditInfo { status: "@
            + decimal_chars(status as nat) + ", caret: "@ + decimal_chars(caret as nat)
            + ", chg_first: "@ + decimal_chars(chg_first as nat) + ", chg_length: "@
            + decimal_chars(chg_length as nat) + ", text: "@ + str_debug_chars(text),
{
}

/// What a preedit frame holds, with the encoding of its string.
pub struct PreeditInfoView {
    pub status: u32,
    pub caret: u32,
    pub chg_first: u32,
    pub chg_length: u32,
    pub encoding: XimEncoding,
    pub preedit: Seq<u8>,
    pub converted: Option<Seq<u8>>,
}

/// Information about the text that the IME is currently editing, and how it
/// has changed.
pub struct PreeditInfo {
    status: u32,
    caret: u32,
    chg_first: u32,
    chg_length: u32,
    encoding: XimEncoding,
    preedit: Vec<u8>,
    converted: Option<Vec<u8>>,
}

impl View for PreeditInfo {
    type V = PreeditInfoView;

    closed spec fn view(&self) -> PreeditInfoView {
        PreeditInfoView {
            status: self.status,
            caret: self.caret,
            chg_first: self.chg_first,
            chg_length: self.chg_length,
            encoding: self.encoding,
            preedit: self.preedit@,
            converted: match self.converted {
                Some(c) => Some(c@),
                None => None,
            },
        }
    }
}

impl PreeditInfo {
    /// The preedit information of a draw frame: its status, caret and change
    /// range, its string as the server sent it, the encoding of the
    /// connection, and, for compound text, what the converter made of the
    /// string (`None` where it failed).
    pub fn new(
        status: u32,
        caret: u32,
        chg_first: u32,
        chg_length: u32,
        encoding: XimEncoding,
        preedit: Vec<u8>,
        converted: Option<Vec<u8>>,
    ) -> (r: PreeditInfo)
        ensures
            r@ == (PreeditInfoView {
                status,
                caret,
                chg_first,
                chg_length,
                encoding,
                preedit: preedit@,
                converted: match converted {
                    Some(c) => Some(c@),
                    None => None,
                },
            }),
    {
        PreeditInfo { status, caret, chg_first, chg_length, encoding, preedit, converted }
    }

    /// Status bitmask: `0x01` no string, `0x02` no feedback. Where no bit is
    /// set, [`PreeditInfo::text`] holds the current text of the IME.
    pub fn status(&self) -> (r: u32)
        ensures
            r == self@.status,
    {
        self.status
    }

    /// Cursor offset within the edited text, in characters.
    pub fn caret(&self) -> (r: u32)
        ensures
            r == self@.caret,
    {
        self.caret
    }

    /// Starting position of the change.
    pub fn chg_first(&self) -> (r: u32)
        ensures
            r == self@.chg_first,
    {
        self.chg_first
    }

    /// Length of the change, in characters.
    pub fn chg_length(&self) -> (r: u32)
        ensures
            r == self@.chg_length,
    {
        self.chg_length
    }

    /// Current text in the IME.
    pub fn text(&self) -> (r: String)
        ensures
            r@ == utf8_lossy_decode(
                xim_text_bytes(self@.encoding, self@.preedit, self@.converted),
            ),
            valid_utf8(xim_text_bytes(self@.encoding, self@.preedit, self@.converted)) ==> r@
                == decode_utf8(xim_text_bytes(self@.encoding, self@.preedit, self@.converted)),
    {
        let converted: Option<&[u8]> = match &self.converted {
            Some(c) => Some(c.as_slice()),
            None => None,
        };
        xim_encoding_to_utf8(self.encoding, self.preedit.as_slice(), converted)
    }

    /// The debug line of the preedit information: status, caret, change
    /// range and the text in quotes (see [`preedit_debug_chars`]).
    pub fn debug_string(&self) -> (r: String)
        ensures
            r@ == preedit_debug_chars(
                self@.status,
                self@.caret,
                self@.chg_first,
                self@.chg_length,
                utf8_lossy_decode(xim_text_bytes(self@.encoding, self@.preedit, self@.converted)),
            ),
            r@ == "PreeditInfo { status: "@ + decimal_chars(
                self@.status as nat,
            ) + ", caret: "@ + decimal_chars(self@.caret as nat) + ", chg_first: "@ + decimal_chars(
                self@.chg_first as nat,
            ) + ", chg_length: "@ + decimal_chars(self@.chg_length as nat) + ", text: "@
                + str_debug_chars(
                utf8_lossy_decode(xim_text_bytes(self@.encoding, self@.preedit, self@.converted)),
            ),
    {
        let mut s = String::from_str("PreeditInfo { status: ");
        append_decimal(&mut s, self.status);
        s.append(", caret: ");
        append_decimal(&mut s, self.caret);
        s.append(", chg_first: ");
        append_decimal(&mut s, self.chg_first);
        s.append(", chg_length: ");
        append_decimal(&mut s, self.chg_length);
        s.append(", text: ");
        let text = self.text();
        let quoted = debug_str(text.as_str());
        s.append(quoted.as_str());
        s
    }
}

} // verus!
