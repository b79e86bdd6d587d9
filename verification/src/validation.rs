//! Raw-input validation shared by the typed identifiers and names.
//!
//! Identifiers (account, group, document) accept a restricted character set
//! and must be between 1 and 100 characters long. Names (group, document,
//! device) must hold something besides whitespace and encode to between 1
//! and 100 bytes. Device ids are 64-bit integers whose value must lie in the
//! non-negative range of a signed 64-bit integer.

use vstd::prelude::*;
use vstd::string::StrSliceExecFns;

verus! {

/// Why a raw value was rejected at the validation boundary.
#[derive(Debug, Clone, PartialEq, Eq)]
pub enum ValidationError {
    /// The raw string was empty.
    EmptyInput,
    /// The raw string exceeds the maximum length of 100 characters.
    InputTooLong { raw: String },
    /// The raw string holds a character outside the permitted identifier set;
    /// `index` is the position of the first such character.
    DisallowedCharacter { raw: String, index: usize },
    /// The raw string holds nothing but whitespace characters.
    WhitespaceOnly { raw: String },
    /// The raw device id was negative.
    NegativeDeviceId { raw: i64 },
    /// The raw unsigned device id exceeds the positive signed 64-bit range.
    OversizedDeviceId { raw: u64 },
}

impl ValidationError {
    /// The descriptive reason for the rejection, pinned per variant.
    pub fn reason(&self) -> (r: &'static str)
        ensures
            r@.len() > 0,
            self matches ValidationError::EmptyInput ==> r@ == "must not be empty"@,
            self matches ValidationError::InputTooLong { .. } ==> r@
                == "must have length between 1 and 100"@,
            self matches ValidationError::DisallowedCharacter { .. } ==> r@
                == "contains invalid characters"@,
            self matches ValidationError::WhitespaceOnly { .. } ==> r@
                == "must not be only whitespace"@,
            self matches ValidationError::NegativeDeviceId { .. } ==> r@
                == "must be a non-negative number"@,
            self matches ValidationError::OversizedDeviceId { .. } ==> r@
                == "must not exceed the signed 64-bit maximum"@,
    {
        match self {
            ValidationError::EmptyInput => {
                proof {
                    reveal_strlit("must not be empty");
                }
                "must not be empty"
            },
            ValidationError::InputTooLong { .. } => {
                proof {
                    reveal_strlit("must have length between 1 and 100");
                }
                "must have length between 1 and 100"
            },
            ValidationError::DisallowedCharacter { .. } => {
                proof {
                    reveal_strlit("contains invalid characters");
                }
                "contains invalid characters"
            },
            ValidationError::WhitespaceOnly { .. } => {
                proof {
                    reveal_strlit("must not be only whitespace");
                }
                "must not be only whitespace"
            },
            ValidationError::NegativeDeviceId { .. } => {
                proof {
                    reveal_strlit("must be a non-negative number");
                }
                "must be a non-negative number"
            },
            ValidationError::OversizedDeviceId { .. } => {
                proof {
                    reveal_strlit("must not exceed the signed 64-bit maximum");
                }
                "must not exceed the signed 64-bit maximum"
            },
        }
    }
}

/// The permitted identifier characters: ASCII letters, digits, and the
/// punctuation set `_.$#|@/:;=+'-` of the engine's identifier grammar.
pub open spec fn is_id_char(c: char) -> bool {
    ('a' as u32 <= c as u32 && c as u32 <= 'z' as u32)
        || ('A' as u32 <= c as u32 && c as u32 <= 'Z' as u32)
        || ('0' as u32 <= c as u32 && c as u32 <= '9' as u32)
        || c == '_' || c == '.' || c == '$' || c == '#' || c == '|' || c == '@'
        || c == '/' || c == ':' || c == ';' || c == '=' || c == '+' || c == '\''
        || c == '-'
}

/// A valid identifier string: non-empty, at most 100 characters, every
/// character in the permitted set.
pub open spec fn valid_id_string(s: Seq<char>) -> bool {
    1 <= s.len() <= 100 && (forall|i: int| 0 <= i < s.len() ==> is_id_char(s[i]))
}

/// The number of bytes the character takes in UTF-8.
pub open spec fn char_utf8_len(c: char) -> int {
    if (c as u32) < 0x80 {
        1
    } else if (c as u32) < 0x800 {
        2
    } else if (c as u32) < 0x10000 {
        3
    } else {
        4
    }
}

/// The number of bytes the string takes in UTF-8.
pub open spec fn utf8_len(s: Seq<char>) -> int
    decreases s.len(),
{
    if s.len() == 0 {
        0
    } else {
        utf8_len(s.drop_last()) + char_utf8_len(s.last())
    }
}

/// A whitespace character: the set Rust's trimming goes by
/// (tab through carriage return, space, next line, no-break space, ogham
/// space mark, the general punctuation spaces, line and paragraph
/// separators, narrow no-break space, medium mathematical space, and the
/// ideographic space).
pub open spec fn is_space_char(c: char) -> bool {
    (9 <= c as u32 && c as u32 <= 13) || c as u32 == 32 || c as u32 == 0x85
        || c as u32 == 0xA0 || c as u32 == 0x1680
        || (0x2000 <= c as u32 && c as u32 <= 0x200A) || c as u32 == 0x2028
        || c as u32 == 0x2029 || c as u32 == 0x202F || c as u32 == 0x205F
        || c as u32 == 0x3000
}

/// A valid name string: it encodes to between 1 and 100 bytes and holds at
/// least one character besides whitespace.
pub open spec fn valid_name_string(s: Seq<char>) -> bool {
    1 <= utf8_len(s) <= 100 && (exists|i: int| 0 <= i < s.len() && !is_space_char(s[i]))
}

/// The exact error owed for a rejected identifier string: empty input first,
/// then the length bound, then the first disallowed character.
pub open spec fn id_rejection(s: Seq<char>, e: ValidationError) -> bool {
    if s.len() == 0 {
        e == ValidationError::EmptyInput
    } else if s.len() > 100 {
        e matches ValidationError::InputTooLong { raw } && raw@ == s
    } else {
        e matches ValidationError::DisallowedCharacter { raw, index } && raw@ == s
            && 0 <= index < s.len() && !is_id_char(s[index as int])
            && (forall|j: int| 0 <= j < index ==> is_id_char(s[j]))
    }
}

/// The exact error owed for a rejected name string: empty input first, then
/// the byte-length bound, then whitespace-only content.
pub open spec fn name_rejection(s: Seq<char>, e: ValidationError) -> bool {
    if s.len() == 0 {
        e == ValidationError::EmptyInput
    } else if utf8_len(s) > 100 {
        e matches ValidationError::InputTooLong { raw } && raw@ == s
    } else {
        e matches ValidationError::WhitespaceOnly { raw } && raw@ == s
            && (forall|i: int| 0 <= i < s.len() ==> is_space_char(s[i]))
    }
}

fn id_char_ok(c: char) -> (r: bool)
    ensures
        r == is_id_char(c),
{
    let u = c as u32;
    ('a' as u32 <= u && u <= 'z' as u32)
        || ('A' as u32 <= u && u <= 'Z' as u32)
        || ('0' as u32 <= u && u <= '9' as u32)
        || c == '_' || c == '.' || c == '$' || c == '#' || c == '|' || c == '@'
        || c == '/' || c == ':' || c == ';' || c == '=' || c == '+' || c == '\''
        || c == '-'
}

/// Validate a raw identifier string, returning the accepted string unchanged
/// or the exact reason it was rejected.
pub fn validate_id_string(s: &str) -> (r: Result<String, ValidationError>)
    ensures
        r matches Ok(v) ==> valid_id_string(s@) && v@ == s@,
        valid_id_string(s@) ==> r is Ok,
        r matches Err(e) ==> !valid_id_string(s@) && id_rejection(s@, e),
{
    let n = s.unicode_len();
    if n == 0 {
        return Err(ValidationError::EmptyInput);
    }
    if n > 100 {
        return Err(ValidationError::InputTooLong { raw: s.to_owned() });
    }
    let mut i: usize = 0;
    while i < n
        invariant
            n == s@.len(),
            1 <= n <= 100,
            i <= n,
            forall|j: int| 0 <= j < i ==> is_id_char(s@[j]),
        decreases n - i,
    {
        let c = s.get_char(i);
        if !id_char_ok(c) {
            return Err(ValidationError::DisallowedCharacter { raw: s.to_owned(), index: i });
        }
        i += 1;
    }
    Ok(s.to_owned())
}

fn space_char_ok(c: char) -> (r: bool)
    ensures
        r == is_space_char(c),
{
    let u = c as u32;
    (9 <= u && u <= 13) || u == 32 || u == 0x85 || u == 0xA0 || u == 0x1680
        || (0x2000 <= u && u <= 0x200A) || u == 0x2028 || u == 0x2029 || u == 0x202F
        || u == 0x205F || u == 0x3000
}

fn char_len(c: char) -> (r: usize)
    ensures
        r == char_utf8_len(c),
{
    let u = c as u32;
    if u < 0x80 {
        1
    } else if u < 0x800 {
        2
    } else if u < 0x10000 {
        3
    } else {
        4
    }
}

/// A prefix of a string never takes more UTF-8 bytes than the whole string.
proof fn lemma_utf8_len_prefix(s: Seq<char>, n: int)
    requires
        0 <= n <= s.len(),
    ensures
        utf8_len(s.take(n)) <= utf8_len(s),
    decreases s.len() - n,
{
    if n == s.len() {
        assert(s.take(n) =~= s);
    } else {
        lemma_utf8_len_prefix(s, n + 1);
        assert(s.take(n + 1).drop_last() =~= s.take(n));
        assert(s.take(n + 1).last() == s[n]);
    }
}

/// Validate a raw name string, returning the accepted string unchanged or the
/// exact reason it was rejected.
pub fn validate_name_string(s: &str) -> (r: Result<String, ValidationError>)
    ensures
        r matches Ok(v) ==> valid_name_string(s@) && v@ == s@,
        valid_name_string(s@) ==> r is Ok,
        r matches Err(e) ==> !valid_name_string(s@) && name_rejection(s@, e),
{
    let n = s.unicode_len();
    if n == 0 {
        return Err(ValidationError::EmptyInput);
    }
    let mut i: usize = 0;
    let mut bytes: usize = 0;
    let mut has_content: bool = false;
    while i < n
        invariant
            n == s@.len(),
            1 <= n,
            i <= n,
            i <= bytes <= 100,
            bytes == utf8_len(s@.take(i as int)),
            has_content == (exists|j: int| 0 <= j < i && !is_space_char(s@[j])),
        decreases n - i,
    {
        let c = s.get_char(i);
        proof {
            assert(s@.take(i + 1).drop_last() =~= s@.take(i as int));
            assert(s@.take(i + 1).last() == s@[i as int]);
        }
        bytes += char_len(c);
        if !space_char_ok(c) {
            has_content = true;
        }
        i += 1;
        if bytes > 100 {
            proof {
                lemma_utf8_len_prefix(s@, i as int);
            }
            return Err(ValidationError::InputTooLong { raw: s.to_owned() });
        }
    }
    proof {
        assert(s@.take(n as int) =~= s@);
    }
    if !has_content {
        return Err(ValidationError::WhitespaceOnly { raw: s.to_owned() });
    }
    Ok(s.to_owned())
}

} // verus!
