//! The compute core of CSV bulk import: turning the records of an uploaded
//! CSV document into creatures. Reading the upload and storing the
//! creatures stay with the surrounding application; the record grammar is
//! handled by the CSV parser behind a trusted wrapper, and everything from
//! records to creatures is verified here.

use vstd::prelude::*;

use crate::monster::{Monster, MonsterView};

verus! {

/// Whether a character is a decimal digit.
pub open spec fn is_digit(c: char) -> bool {
    '0' <= c && c <= '9'
}

/// The numeric value of a decimal digit character.
pub open spec fn digit_value(c: char) -> int {
    c as int - '0' as int
}

/// Whether every character of a string is a decimal digit.
pub open spec fn all_digits(s: Seq<char>) -> bool {
    forall|i: int| 0 <= i < s.len() ==> is_digit(#[trigger] s[i])
}

/// The value of a string of decimal digits, most significant first.
pub open spec fn digits_value(s: Seq<char>) -> int
    decreases s.len(),
{
    if s.len() == 0 {
        0
    } else {
        digits_value(s.drop_last()) * 10 + digit_value(s.last())
    }
}

/// The signed 32-bit integer a string denotes, if any: an optional sign,
/// then at least one decimal digit and nothing else, with the value within
/// the type's range.
pub open spec fn spec_parse_i32(s: Seq<char>) -> Option<int> {
    let negative = s.len() > 0 && s[0] == '-';
    let digits = if s.len() > 0 && (s[0] == '-' || s[0] == '+') {
        s.skip(1)
    } else {
        s
    };
    if digits.len() == 0 || !all_digits(digits) {
        None
    } else {
        let v = if negative {
            -digits_value(digits)
        } else {
            digits_value(digits)
        };
        if -0x8000_0000 <= v <= 0x7fff_ffff {
            Some(v)
        } else {
            None
        }
    }
}

/// Every prefix of an all-digit string is all digits.
proof fn lemma_all_digits_prefix(s: Seq<char>, i: int)
    requires
        all_digits(s),
        0 <= i <= s.len(),
    ensures
        all_digits(s.take(i)),
{
    assert forall|j: int| 0 <= j < s.take(i).len() implies is_digit(#[trigger] s.take(i)[j]) by {
        assert(s.take(i)[j] == s[j]);
    }
}

/// The value of an all-digit string is never negative.
proof fn lemma_digits_value_nonneg(s: Seq<char>)
    requires
        all_digits(s),
    ensures
        digits_value(s) >= 0,
    decreases s.len(),
{
    if s.len() > 0 {
        lemma_all_digits_prefix(s, s.len() - 1);
        assert(s.drop_last() == s.take(s.len() - 1));
        lemma_digits_value_nonneg(s.drop_last());
        assert(is_digit(s[s.len() - 1]));
    }
}

/// Reading more digits never shrinks the value: the value of a prefix of an
/// all-digit string is at most the value of the whole string.
proof fn lemma_digits_value_take_le(s: Seq<char>, i: int)
    requires
        all_digits(s),
        0 <= i <= s.len(),
    ensures
        digits_value(s.take(i)) <= digits_value(s),
    decreases s.len() - i,
{
    if i < s.len() {
        assert(s.take(i + 1).drop_last() =~= s.take(i));
        assert(s.take(i + 1).last() == s[i]);
        lemma_all_digits_prefix(s, i);
        lemma_digits_value_nonneg(s.take(i));
        assert(is_digit(s[i]));
        assert(digits_value(s.take(i)) <= digits_value(s.take(i + 1)));
        lemma_digits_value_take_le(s, i + 1);
    } else {
        assert(s.take(i) =~= s);
    }
}

/// Parse a signed 32-bit integer from a string: an optional sign, then at
/// least one decimal digit and nothing else. Returns `None` on any other
/// shape, and on values outside the type's range.
pub fn parse_i32(s: &str) -> (r: Option<i32>)
    ensures
        match r {
            Some(v) => spec_parse_i32(s@) == Some(v as int),
            None => spec_parse_i32(s@) is None,
        },
{
    let len: usize = s.unicode_len();
    let mut start: usize = 0;
    let mut negative: bool = false;
    if len > 0 {
        let c0 = s.get_char(0);
        if c0 == '-' {
            negative = true;
            start = 1;
        } else if c0 == '+' {
            start = 1;
        }
    }
    if start >= len {
        return None;
    }
    let ghost digits: Seq<char> = s@.skip(start as int);
    proof {
        if start == 0 {
            assert(digits =~= s@);
        }
    }
    let mut acc: i64 = 0;
    let mut i: usize = start;
    while i < len
        invariant
            start <= i <= len,
            start < len,
            len == s@.len(),
            start == if s@.len() > 0 && (s@[0] == '-' || s@[0] == '+') {
                1int
            } else {
                0int
            },
            negative == (s@.len() > 0 && s@[0] == '-'),
            digits == s@.skip(start as int),
            all_digits(digits.take(i - start)),
            acc == digits_value(digits.take(i - start)),
            0 <= acc <= 0x8000_0000,
        decreases len - i,
    {
        let c = s.get_char(i);
        proof {
            assert(digits[i - start] == s@[i as int]);
        }
        if c < '0' || c > '9' {
            assert(!is_digit(digits[i - start]));
            return None;
        }
        let d: i64 = (c as u32) as i64 - ('0' as u32) as i64;
        proof {
            assert(digits.take(i - start + 1).drop_last() =~= digits.take(i - start));
            assert(digits.take(i - start + 1).last() == digits[i - start]);
        }
        acc = acc * 10 + d;
        i = i + 1;
        if acc > 0x8000_0000 {
            proof {
                let specd: Seq<char> = if s@.len() > 0 && (s@[0] == '-' || s@[0] == '+') {
                    s@.skip(1)
                } else {
                    s@
                };
                assert(specd == digits);
                if all_digits(digits) {
                    lemma_digits_value_take_le(digits, i - start);
                }
            }
            return None;
        }
    }
    proof {
        assert(digits.take(i - start) =~= digits);
    }
    if negative {
        Some((-acc) as i32)
    } else {
        if acc > 0x7fff_ffff {
            None
        } else {
            Some(acc as i32)
        }
    }
}

/// Whether two strings hold the same characters.
pub fn str_eq(a: &str, b: &str) -> (r: bool)
    ensures
        r == (a@ == b@),
{
    let alen = a.unicode_len();
    let blen = b.unicode_len();
    if alen != blen {
        return false;
    }
    let mut i: usize = 0;
    while i < alen
        invariant
            0 <= i <= alen,
            alen == a@.len(),
            alen == blen,
            blen == b@.len(),
            forall|j: int| 0 <= j < i ==> a@[j] == b@[j],
        decreases alen - i,
    {
        if a.get_char(i) != b.get_char(i) {
            return false;
        }
        i = i + 1;
    }
    proof {
        assert(a@ =~= b@);
    }
    true
}

/// The column of the first header equal to `name`, if any.
pub open spec fn spec_find_col(headers: Seq<Seq<char>>, name: Seq<char>) -> Option<int>
    decreases headers.len(),
{
    if headers.len() == 0 {
        None
    } else if headers[0] == name {
        Some(0)
    } else {
        match spec_find_col(headers.drop_first(), name) {
            None => None,
            Some(i) => Some(i + 1),
        }
    }
}

/// Looking for a header among columns at or after `i` is looking in the
/// rest of the header record, shifted by `i`, as long as no column before
/// `i` matches.
proof fn lemma_find_col_skip(headers: Seq<Seq<char>>, name: Seq<char>, i: int)
    requires
        0 <= i <= headers.len(),
        forall|j: int| 0 <= j < i ==> headers[j] != name,
    ensures
        spec_find_col(headers, name) == match spec_find_col(headers.skip(i), name) {
            None => None::<int>,
            Some(k) => Some(k + i),
        },
    decreases i,
{
    if i == 0 {
        assert(headers.skip(0) =~= headers);
    } else {
        assert(headers[0] != name);
        let tail: Seq<Seq<char>> = headers.drop_first();
        assert forall|j: int| 0 <= j < i - 1 implies tail[j] != name by {
            assert(tail[j] == headers[j + 1]);
        }
        lemma_find_col_skip(tail, name, i - 1);
        assert(tail.skip(i - 1) =~= headers.skip(i));
    }
}

/// Find the column whose header equals `name`.
fn find_col(headers: &Vec<String>, name: &str) -> (r: Option<usize>)
    ensures
        match r {
            Some(i) => i < headers.len() && spec_find_col(headers.deep_view(), name@) == Some(
                i as int,
            ),
            None => spec_find_col(headers.deep_view(), name@) is None,
        },
{
    let n = headers.len();
    let mut i: usize = 0;
    while i < n
        invariant
            0 <= i <= n,
            n == headers.len(),
            forall|j: int| 0 <= j < i ==> headers.deep_view()[j] != name@,
        decreases n - i,
    {
        if str_eq(headers[i].as_str(), name) {
            proof {
                lemma_find_col_skip(headers.deep_view(), name@, i as int);
                assert(headers.deep_view().skip(i as int)[0] == headers.deep_view()[i as int]);
            }
            return Some(i);
        }
        i = i + 1;
    }
    proof {
        lemma_find_col_skip(headers.deep_view(), name@, n as int);
        assert(headers.deep_view().skip(n as int) =~= Seq::<Seq<char>>::empty());
    }
    None
}

/// The field under the column named `name` in a record, if that column
/// exists and the record is long enough to hold it.
pub open spec fn spec_row_field(
    headers: Seq<Seq<char>>,
    row: Seq<Seq<char>>,
    name: Seq<char>,
) -> Option<Seq<char>> {
    match spec_find_col(headers, name) {
        None => None,
        Some(i) => if i < row.len() {
            Some(row[i])
        } else {
            None
        },
    }
}

/// The field under the column named `name`, read as a signed 32-bit
/// integer.
pub open spec fn spec_field_i32(
    headers: Seq<Seq<char>>,
    row: Seq<Seq<char>>,
    name: Seq<char>,
) -> Option<int> {
    match spec_row_field(headers, row, name) {
        None => None,
        Some(f) => spec_parse_i32(f),
    }
}

/// The creature a CSV record denotes under the given header record, if
/// every required column is present and every numeric field parses. The
/// identifier column is optional and defaults to empty; the store assigns
/// identifiers to imported creatures.
pub open spec fn spec_monster_from_row(headers: Seq<Seq<char>>, row: Seq<Seq<char>>) -> Option<
    MonsterView,
> {
    let name = spec_row_field(headers, row, "name"@);
    let image_url = spec_row_field(headers, row, "image_url"@);
    let attack = spec_field_i32(headers, row, "attack"@);
    let defense = spec_field_i32(headers, row, "defense"@);
    let hp = spec_field_i32(headers, row, "hp"@);
    let speed = spec_field_i32(headers, row, "speed"@);
    if name is Some && image_url is Some && attack is Some && defense is Some && hp is Some
        && speed is Some {
        Some(
            MonsterView {
                id: match spec_row_field(headers, row, "id"@) {
                    Some(f) => f,
                    None => Seq::empty(),
                },
                name: name->Some_0,
                image_url: image_url->Some_0,
                attack: attack->Some_0,
                defense: defense->Some_0,
                hp: hp->Some_0,
                speed: speed->Some_0,
            },
        )
    } else {
        None
    }
}

/// The field under the column named `name` in a record.
fn row_field(headers: &Vec<String>, row: &Vec<String>, name: &str) -> (r: Option<String>)
    ensures
        match r {
            Some(s) => spec_row_field(headers.deep_view(), row.deep_view(), name@) == Some(s@),
            None => spec_row_field(headers.deep_view(), row.deep_view(), name@) is None,
        },
{
    match find_col(headers, name) {
        None => None,
        Some(i) => if i < row.len() {
            Some(row[i].clone())
        } else {
            None
        },
    }
}

/// The field under the column named `name`, read as a signed 32-bit
/// integer.
fn row_field_i32(headers: &Vec<String>, row: &Vec<String>, name: &str) -> (r: Option<i32>)
    ensures
        match r {
            Some(v) => spec_field_i32(headers.deep_view(), row.deep_view(), name@) == Some(
                v as int,
            ),
            None => spec_field_i32(headers.deep_view(), row.deep_view(), name@) is None,
        },
{
    match row_field(headers, row, name) {
        None => None,
        Some(f) => parse_i32(f.as_str()),
    }
}

/// Read one CSV record as a creature under the given header record.
pub fn monster_from_row(headers: &Vec<String>, row: &Vec<String>) -> (r: Option<Monster>)
    ensures
        match r {
            Some(m) => spec_monster_from_row(headers.deep_view(), row.deep_view()) == Some(m@),
            None => spec_monster_from_row(headers.deep_view(), row.deep_view()) is None,
        },
{
    let name = row_field(headers, row, "name");
    let image_url = row_field(headers, row, "image_url");
    let attack = row_field_i32(headers, row, "attack");
    let defense = row_field_i32(headers, row, "defense");
    let hp = row_field_i32(headers, row, "hp");
    let speed = row_field_i32(headers, row, "speed");
    match (name, image_url, attack, defense, hp, speed) {
        (Some(name), Some(image_url), Some(attack), Some(defense), Some(hp), Some(speed)) => {
            let id = match row_field(headers, row, "id") {
                Some(f) => f,
                None => String::new(),
            };
            let m = Monster { id, name, image_url, attack, defense, hp, speed };
            proof {
                assert(m@ =~= spec_monster_from_row(headers.deep_view(), row.deep_view())->Some_0);
            }
            Some(m)
        },
        _ => None,
    }
}

/// The table of records a CSV document denotes, if it is well formed: one
/// sequence of fields per record, the header record included.
pub uninterp spec fn csv_records_of(data: Seq<u8>) -> Option<Seq<Seq<Seq<char>>>>;

/// Relies on `csv::ReaderBuilder` and `csv::Reader`: parsing is a pure
/// function of the input bytes; every record comes back as its fields, and
/// a malformed record (bad quoting, non-UTF-8 data, a record length unequal
/// to the first record's) is reported as an error.
#[verifier::external_body]
pub(crate) fn parse_csv_records(data: &[u8]) -> (r: Option<Vec<Vec<String>>>)
    ensures
        match r {
            Some(rows) => csv_records_of(data@) == Some(rows.deep_view()),
            None => csv_records_of(data@) is None,
        },
{
    let mut reader = csv::ReaderBuilder::new().has_headers(false).from_reader(data);
    let mut rows = Vec::new();
    for record in reader.records() {
        match record {
            Ok(fields) => rows.push(fields.iter().map(|f| f.to_string()).collect()),
            Err(_) => return None,
        }
    }
    Some(rows)
}

/// Why a CSV import was rejected.
#[derive(Clone, Copy, Debug, PartialEq, Eq, Structural)]
pub enum ImportError {
    /// The document was malformed, or a record could not be read as a
    /// creature: a required column missing, or a numeric field that does
    /// not parse.
    BadData,
    /// The document held no creature records at all.
    NoMonsters,
}

/// The outcome of importing a CSV document: the creatures its records
/// denote, in order, under the header record; or the reason the document
/// was rejected.
pub open spec fn spec_import(data: Seq<u8>) -> Result<Seq<MonsterView>, ImportError> {
    match csv_records_of(data) {
        None => Err(ImportError::BadData),
        Some(rows) => {
            if rows.len() == 0 {
                Err(ImportError::NoMonsters)
            } else {
                let headers = rows[0];
                let body = rows.skip(1);
                if !(forall|i: int|
                    0 <= i < body.len() ==> spec_monster_from_row(headers, #[trigger] body[i])
                        is Some) {
                    Err(ImportError::BadData)
                } else if body.len() == 0 {
                    Err(ImportError::NoMonsters)
                } else {
                    Ok(body.map_values(|row| spec_monster_from_row(headers, row)->Some_0))
                }
            }
        },
    }
}

/// Import creatures from the bytes of an uploaded CSV document. The first
/// record names the columns; every following record must denote a creature,
/// else the whole document is rejected, and a document with no creature
/// records is rejected as empty. The caller stores the creatures and
/// reports the outcome.
pub fn import_csv(data: &[u8]) -> (r: Result<Vec<Monster>, ImportError>)
    ensures
        match r {
            Ok(ms) => spec_import(data@) == Ok::<Seq<MonsterView>, ImportError>(
                ms@.map_values(|m: Monster| m@),
            ),
            Err(e) => spec_import(data@) == Err::<Seq<MonsterView>, ImportError>(e),
        },
{
    let parsed = parse_csv_records(data);
    match parsed {
        None => Err(ImportError::BadData),
        Some(rows) => {
            let ghost table: Seq<Seq<Seq<char>>> = rows.deep_view();
            if rows.len() == 0 {
                return Err(ImportError::NoMonsters);
            }
            let mut out: Vec<Monster> = Vec::new();
            let mut i: usize = 1;
            while i < rows.len()
                invariant
                    1 <= i <= rows.len(),
                    table == rows.deep_view(),
                    table.len() == rows.len(),
                    csv_records_of(data@) == Some(table),
                    out@.len() == i - 1,
                    forall|k: int|
                        1 <= k < i ==> spec_monster_from_row(table[0], #[trigger] table[k]) == Some(
                            out@[k - 1]@,
                        ),
                decreases rows.len() - i,
            {
                let m = monster_from_row(&rows[0], &rows[i]);
                proof {
                    assert(table[0] == rows@[0].deep_view());
                    assert(table[i as int] == rows@[i as int].deep_view());
                }
                match m {
                    Some(m) => out.push(m),
                    None => {
                        proof {
                            let body = table.skip(1);
                            assert(body[i - 1] == table[i as int]);
                            assert(spec_monster_from_row(table[0], body[i - 1]) is None);
                        }
                        return Err(ImportError::BadData);
                    },
                }
                i = i + 1;
            }
            if out.len() == 0 {
                proof {
                    assert(table.skip(1).len() == 0);
                }
                Err(ImportError::NoMonsters)
            } else {
                proof {
                    let headers = table[0];
                    let body = table.skip(1);
                    assert forall|j: int| 0 <= j < body.len() implies spec_monster_from_row(
                        headers,
                        #[trigger] body[j],
                    ) is Some by {
                        assert(body[j] == table[j + 1]);
                        assert(spec_monster_from_row(table[0], table[j + 1]) == Some(out@[j]@));
                    }
                    assert forall|j: int| 0 <= j < body.len() implies spec_monster_from_row(
                        headers,
                        #[trigger] body[j],
                    )->Some_0 == out@[j]@ by {
                        assert(body[j] == table[j + 1]);
                        assert(spec_monster_from_row(table[0], table[j + 1]) == Some(out@[j]@));
                    }
                    assert(out@.map_values(|m: Monster| m@) =~= body.map_values(
                        |row| spec_monster_from_row(headers, row)->Some_0,
                    ));
                }
                Ok(out)
            }
        },
    }
}

} // verus!
