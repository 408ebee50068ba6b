//! The error catalog: the messages that the toolchain ships for its exit codes.

use vstd::prelude::*;
use vstd::string::*;
use std::collections::HashMap;
use crate::json::{json_document, parse_json, Json};

verus! {

broadcast use vstd::std_specs::hash::group_hash_axioms;

pub open spec fn is_digit(c: char) -> bool {
    '0' <= c && c <= '9'
}

pub open spec fn all_digits(s: Seq<char>) -> bool {
    forall|i: int| 0 <= i < s.len() ==> is_digit(#[trigger] s[i])
}

/// The number that a run of decimal digits writes.
pub open spec fn digits_value(s: Seq<char>) -> int
    decreases s.len(),
{
    if s.len() == 0 {
        0
    } else {
        digits_value(s.drop_last()) * 10 + (s.last() as int - '0' as int)
    }
}

/// The exit code that a catalog key stands for: an optional sign, then one or
/// more decimal digits and nothing else, with a value that is not negative
/// and fits in 32 bits. A key that writes a negative number stands for no
/// exit code.
pub open spec fn parsed_code(key: Seq<char>) -> Option<i32> {
    let negative = key.len() > 0 && key[0] == '-';
    let signed = key.len() > 0 && (key[0] == '-' || key[0] == '+');
    let digits = if signed {
        key.skip(1)
    } else {
        key
    };
    let value = if negative {
        -digits_value(digits)
    } else {
        digits_value(digits)
    };
    if digits.len() > 0 && all_digits(digits) && 0 <= value <= i32::MAX {
        Some(value as i32)
    } else {
        None
    }
}

/// Reads an exit code from a catalog key. Exit codes are not negative.
pub fn parse_code(key: &str) -> (r: Option<i32>)
    ensures
        r == parsed_code(key@),
        r.is_some() ==> r.unwrap() >= 0,
{
    let n: usize = key.unicode_len();
    if n == 0 {
        return None;
    }
    let first = key.get_char(0);
    let negative = first == '-';
    let start: usize = if first == '-' || first == '+' {
        1
    } else {
        0
    };
    let ghost digits = if start == 1 {
        key@.skip(1)
    } else {
        key@
    };
    if start == n {
        return None;
    }
    let mut value: i64 = 0;
    let mut too_large = false;
    let mut i: usize = start;
    assert(digits.take(0).len() == 0);
    while i < n
        invariant
            start <= i <= n,
            n == key@.len(),
            digits.len() == n - start,
            digits == if key@[0] == '-' || key@[0] == '+' {
                key@.skip(1)
            } else {
                key@
            },
            forall|k: int| 0 <= k < digits.len() ==> digits[k] == key@[k + start],
            all_digits(digits.take(i - start)),
            0 <= value <= 2147483648,
            !too_large ==> value == digits_value(digits.take(i - start)),
            too_large ==> digits_value(digits.take(i - start)) > 2147483648,
        decreases n - i,
    {
        let c = key.get_char(i);
        assert(digits[i - start] == c);
        if !('0' <= c && c <= '9') {
            assert(!is_digit(digits[i - start]));
            return None;
        }
        let d: i64 = (c as u32 - '0' as u32) as i64;
        proof {
            let longer = digits.take(i + 1 - start);
            assert(longer.drop_last() =~= digits.take(i - start));
            assert(longer.last() == c);
            assert(digits_value(longer) == digits_value(digits.take(i - start)) * 10 + d);
            assert forall|k: int| 0 <= k < longer.len() implies is_digit(#[trigger] longer[k]) by {
                if k < longer.len() - 1 {
                    assert(digits.take(i - start)[k] == longer[k]);
                }
            }
        }
        if !too_large {
            let next: i64 = value * 10 + d;
            if next > 2147483648 {
                too_large = true;
            } else {
                value = next;
            }
        }
        i += 1;
    }
    assert(digits.take(n - start) =~= digits);
    if too_large {
        None
    } else if negative {
        if value == 0 {
            Some(0)
        } else {
            None
        }
    } else if value > 2147483647 {
        None
    } else {
        Some(value as i32)
    }
}

/// The message of a catalog record: its `msg` member, where the record is an
/// object and that member a string.
pub open spec fn record_message(value: Json) -> Option<Seq<char>> {
    value.text_field("msg"@)
}

/// Whether every code of a catalog is an exit code, that is not negative.
pub open spec fn codes_non_negative(catalog: Map<i32, Seq<char>>) -> bool {
    forall|code: i32| catalog.contains_key(code) ==> code >= 0
}

/// The catalog that the members of a JSON object make. A member whose key is
/// no exit code or whose value is no record is left out; of two members with
/// the same code the later one stays.
pub open spec fn catalog_entries(members: Seq<(String, Json)>) -> Map<i32, Seq<char>>
    decreases members.len(),
{
    if members.len() == 0 {
        Map::empty()
    } else {
        let rest = catalog_entries(members.drop_last());
        let key = parsed_code(members.last().0@);
        let message = record_message(members.last().1);
        if key.is_some() && message.is_some() {
            rest.insert(key.unwrap(), message.unwrap())
        } else {
            rest
        }
    }
}

/// The catalog that a document makes: empty unless the document is an object.
pub open spec fn catalog_of(doc: Option<Json>) -> Map<i32, Seq<char>> {
    match doc {
        Some(Json::Object(members)) => catalog_entries(members@),
        _ => Map::empty(),
    }
}

/// The catalog that the contents of the catalog file make. No contents (the
/// file is missing or unreadable) and contents that are not JSON make the
/// empty catalog.
pub open spec fn catalog_of_file(contents: Option<Seq<char>>) -> Map<i32, Seq<char>> {
    match contents {
        Some(text) => catalog_of(json_document(text)),
        None => Map::empty(),
    }
}

/// A mapping from exit code to diagnostic message. No code in it is
/// negative.
#[derive(Debug)]
pub struct ErrorCatalog {
    codes: HashMap<i32, String>,
}

impl View for ErrorCatalog {
    type V = Map<i32, Seq<char>>;

    closed spec fn view(&self) -> Map<i32, Seq<char>> {
        Map::new(|code: i32| self.codes@.contains_key(code), |code: i32| self.codes@[code]@)
    }
}

impl ErrorCatalog {
    #[verifier::type_invariant]
    closed spec fn codes_are_exit_codes(&self) -> bool {
        forall|code: i32| self.codes@.contains_key(code) ==> code >= 0
    }

    /// The empty catalog.
    pub fn new() -> (r: Self)
        ensures
            r@ == Map::<i32, Seq<char>>::empty(),
            codes_non_negative(r@),
    {
        let r = ErrorCatalog { codes: HashMap::new() };
        assert(r@ =~= Map::<i32, Seq<char>>::empty());
        r
    }

    /// Sets the message of the exit code `code`, replacing an earlier one.
    pub fn insert(&mut self, code: i32, msg: String)
        requires
            code >= 0,
        ensures
            final(self)@ == old(self)@.insert(code, msg@),
            codes_non_negative(final(self)@),
    {
        proof {
            use_type_invariant(&*self);
        }
        let mut codes: HashMap<i32, String> = HashMap::new();
        std::mem::swap(&mut self.codes, &mut codes);
        codes.insert(code, msg);
        std::mem::swap(&mut self.codes, &mut codes);
        assert(self@ =~= old(self)@.insert(code, msg@));
    }

    /// How many codes the catalog has a message for.
    pub fn len(&self) -> (r: usize)
        ensures
            r == self@.len(),
    {
        assert(self@.dom() =~= self.codes@.dom());
        self.codes.len()
    }

    /// The message of `code`, if the catalog has one. A negative code has
    /// none.
    pub fn get(&self, code: i32) -> (r: Option<String>)
        ensures
            r.is_some() == self@.contains_key(code),
            r.is_some() ==> r.unwrap()@ == self@[code],
            code < 0 ==> r.is_none(),
    {
        proof {
            use_type_invariant(self);
        }
        match self.codes.get(&code) {
            Some(msg) => Some(msg.clone()),
            None => None,
        }
    }

    /// Whether the catalog has a message for `code`. It has none for a
    /// negative code.
    pub fn contains(&self, code: i32) -> (r: bool)
        ensures
            r == self@.contains_key(code),
            code < 0 ==> !r,
    {
        proof {
            use_type_invariant(self);
        }
        self.codes.get(&code).is_some()
    }

    /// Whether the catalog has no message at all.
    pub fn is_empty(&self) -> (r: bool)
        ensures
            r == (self@ == Map::<i32, Seq<char>>::empty()),
    {
        let r = self.codes.is_empty();
        proof {
            if r {
                assert(self@ =~= Map::<i32, Seq<char>>::empty());
            } else {
                let k = choose|k: i32| self.codes@.contains_key(k);
                assert(self@.contains_key(k));
            }
        }
        r
    }
}

/// Builds the catalog from a parsed document. Anything but an object gives
/// the empty catalog; inside an object each malformed member is skipped, a
/// member with a negative code among them.
pub fn catalog_from_json(doc: Option<&Json>) -> (r: ErrorCatalog)
    ensures
        r@ == catalog_of(
            match doc {
                Some(d) => Some(*d),
                None => None,
            },
        ),
        codes_non_negative(r@),
{
    let mut result = ErrorCatalog::new();
    match doc {
        Some(Json::Object(members)) => {
            let mut i: usize = 0;
            while i < members.len()
                invariant
                    i <= members.len(),
                    result@ == catalog_entries(members@.take(i as int)),
                decreases members.len() - i,
            {
                let entry = &members[i];
                assert(members@.take(i + 1).drop_last() =~= members@.take(i as int));
                assert(members@.take(i + 1).last() == members@[i as int]);
                let code = parse_code(entry.0.as_str());
                let message = entry.1.get_text("msg");
                match (code, message) {
                    (Some(c), Some(m)) => {
                        result.insert(c, m);
                    },
                    _ => {},
                }
                i += 1;
            }
            assert(members@.take(members.len() as int) =~= members@);
            proof {
                use_type_invariant(&result);
            }
            result
        },
        _ => {
            proof {
                use_type_invariant(&result);
            }
            result
        },
    }
}

/// Loads the error catalog from the contents of the catalog file, `None`
/// standing for a file that is missing or cannot be read. Never fails: what
/// cannot be used gives the empty catalog. No code of the result is negative.
pub fn get_error_codes(contents: Option<&str>) -> (r: ErrorCatalog)
    ensures
        r@ == catalog_of_file(
            match contents {
                Some(text) => Some(text@),
                None => None,
            },
        ),
        codes_non_negative(r@),
{
    match contents {
        Some(text) => {
            let doc = parse_json(text);
            catalog_from_json(doc.as_ref())
        },
        None => ErrorCatalog::new(),
    }
}

} // verus!
