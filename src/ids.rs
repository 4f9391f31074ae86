//! Typed identifiers of the form `{kind}--{uuid}`: generation, validation,
//! extraction of the kind, and kind checks on references.
use vstd::prelude::*;

verus! {

/// An ASCII hexadecimal digit, in either case.
pub open spec fn is_hex_digit(c: char) -> bool {
    ('0' <= c && c <= '9') || ('a' <= c && c <= 'f') || ('A' <= c && c <= 'F')
}

/// The positions of the four hyphens in the hyphenated UUID form.
pub open spec fn is_hyphen_slot(i: int) -> bool {
    i == 8 || i == 13 || i == 18 || i == 23
}

/// `xxxxxxxx-xxxx-xxxx-xxxx-xxxxxxxxxxxx` with hexadecimal digits.
pub open spec fn is_hyphenated_uuid(s: Seq<char>) -> bool {
    &&& s.len() == 36
    &&& forall|i: int|
        0 <= i < 36 ==> if is_hyphen_slot(i) {
            s[i] == '-'
        } else {
            is_hex_digit(#[trigger] s[i])
        }
}

/// 32 hexadecimal digits.
pub open spec fn is_simple_uuid(s: Seq<char>) -> bool {
    s.len() == 32 && forall|i: int| 0 <= i < 32 ==> is_hex_digit(#[trigger] s[i])
}

/// `urn:uuid:` at the start of `s`, letters in either case.
pub open spec fn has_urn_prefix(s: Seq<char>) -> bool {
    &&& s.len() >= 9
    &&& (s[0] == 'u' || s[0] == 'U')
    &&& (s[1] == 'r' || s[1] == 'R')
    &&& (s[2] == 'n' || s[2] == 'N')
    &&& s[3] == ':'
    &&& (s[4] == 'u' || s[4] == 'U')
    &&& (s[5] == 'u' || s[5] == 'U')
    &&& (s[6] == 'i' || s[6] == 'I')
    &&& (s[7] == 'd' || s[7] == 'D')
    &&& s[8] == ':'
}

/// The texts that the UUID parser accepts: the simple, hyphenated, braced
/// (`{...}`) and URN (`urn:uuid:...`) forms.
pub open spec fn is_uuid_text(s: Seq<char>) -> bool {
    ||| is_simple_uuid(s)
    ||| is_hyphenated_uuid(s)
    ||| (s.len() == 38 && s[0] == '{' && s[37] == '}' && is_hyphenated_uuid(s.subrange(1, 37)))
    ||| (s.len() == 45 && has_urn_prefix(s) && is_hyphenated_uuid(s.subrange(9, 45)))
}

/// The two-character separator between kind and UUID.
pub open spec fn separator() -> Seq<char> {
    seq!['-', '-']
}

/// A separator `--` starts at position `i` of `s`.
pub open spec fn sep_at(s: Seq<char>, i: int) -> bool {
    0 <= i && i + 1 < s.len() && s[i] == '-' && s[i + 1] == '-'
}

/// Splitting `s` on `--` (left to right, matches not overlapping) yields
/// exactly two pieces, and the one cut is at `i`.
pub open spec fn sole_sep_at(s: Seq<char>, i: int) -> bool {
    &&& sep_at(s, i)
    &&& forall|j: int| 0 <= j < i ==> !#[trigger] sep_at(s, j)
    &&& forall|j: int| i + 2 <= j ==> !#[trigger] sep_at(s, j)
}

/// `s` is a valid identifier whose kind ends at `i`: exactly two pieces, a
/// non-empty kind, and a UUID after the separator.
pub open spec fn valid_id_at(s: Seq<char>, i: int) -> bool {
    &&& sole_sep_at(s, i)
    &&& i > 0
    &&& is_uuid_text(s.subrange(i + 2, s.len() as int))
}

/// `s` is a valid identifier.
pub open spec fn is_valid_id(s: Seq<char>) -> bool {
    exists|i: int| valid_id_at(s, i)
}

/// The kind segment of a valid identifier, and none for any other text.
pub open spec fn id_kind(s: Seq<char>) -> Option<Seq<char>> {
    if is_valid_id(s) {
        Some(s.subrange(0, choose|i: int| valid_id_at(s, i)))
    } else {
        None
    }
}

/// A kind that an identifier can carry and give back: non-empty, free of
/// `--`, and not ending in `-` (which would merge into the separator).
pub open spec fn is_plain_kind(kind: Seq<char>) -> bool {
    &&& kind.len() > 0
    &&& forall|j: int| !#[trigger] sep_at(kind, j)
    &&& kind.last() != '-'
}

/// `id` is `kind`, the separator, and a hyphenated UUID.
pub open spec fn is_generated_id(kind: Seq<char>, id: Seq<char>) -> bool {
    exists|u: Seq<char>| is_hyphenated_uuid(u) && id == kind + separator() + u
}

/// Relies on `uuid::Uuid::parse_str`: it succeeds exactly on the simple,
/// hyphenated, braced and URN forms (hex digits in either case).
#[verifier::external_body]
fn uuid_parses(s: &str) -> (r: bool)
    ensures
        r == is_uuid_text(s@),
{
    uuid::Uuid::parse_str(s).is_ok()
}

/// Relies on `uuid::Uuid::new_v4` and the `Display` of `Uuid`: a random UUID
/// printed in the hyphenated form. It panics when the system's random source
/// fails.
#[verifier::external_body]
fn random_uuid_text() -> (r: String)
    ensures
        is_hyphenated_uuid(r@),
{
    uuid::Uuid::new_v4().to_string()
}

/// At most one cut position yields two pieces.
pub proof fn lemma_sole_sep_unique(s: Seq<char>, i: int, j: int)
    requires
        sole_sep_at(s, i),
        sole_sep_at(s, j),
    ensures
        i == j,
{
    if i < j {
        assert(sep_at(s, i));
    } else if j < i {
        assert(sep_at(s, j));
    }
}

/// The kind of an identifier valid at `i` ends at `i`.
pub proof fn lemma_id_kind_at(s: Seq<char>, i: int)
    requires
        valid_id_at(s, i),
    ensures
        is_valid_id(s),
        id_kind(s) == Some(s.subrange(0, i)),
{
    let k = choose|k: int| valid_id_at(s, k);
    lemma_sole_sep_unique(s, i, k);
}

/// A generated identifier for a plain kind is valid, and its kind is the one
/// it was generated for.
pub proof fn lemma_generated_id_valid(kind: Seq<char>, id: Seq<char>)
    requires
        is_plain_kind(kind),
        is_generated_id(kind, id),
    ensures
        is_valid_id(id),
        id_kind(id) == Some(kind),
{
    let u = choose|u: Seq<char>| is_hyphenated_uuid(u) && id == kind + separator() + u;
    let i = kind.len() as int;
    assert(id.subrange(0, i) =~= kind);
    assert(id.subrange(i + 2, id.len() as int) =~= u);
    assert forall|j: int| 0 <= j < i implies !#[trigger] sep_at(id, j) by {
        if j + 1 < i {
            assert(!sep_at(kind, j));
        } else {
            assert(id[j] == kind.last());
        }
    }
    assert forall|j: int| i + 2 <= j implies !#[trigger] sep_at(id, j) by {
        if sep_at(id, j) {
            let p = j - (i + 2);
            assert(u[p] == id[j]);
            assert(u[p + 1] == id[j + 1]);
            assert(is_hyphen_slot(p)) by {
                if !is_hyphen_slot(p) {
                    assert(is_hex_digit(u[p]));
                }
            }
            assert(is_hyphen_slot(p + 1)) by {
                if !is_hyphen_slot(p + 1) {
                    assert(is_hex_digit(u[p + 1]));
                }
            }
        }
    }
    assert(valid_id_at(id, i));
    lemma_id_kind_at(id, i);
}

/// A generated identifier for a plain kind refers to that kind and to no
/// other.
pub proof fn lemma_generated_ref_matches_only_its_kind(
    kind: Seq<char>,
    id: Seq<char>,
    expected: Seq<char>,
)
    requires
        is_plain_kind(kind),
        is_generated_id(kind, id),
    ensures
        (id_kind(id) == Some(expected)) <==> expected == kind,
{
    lemma_generated_id_valid(kind, id);
}

/// The first separator at or after `from`, if any.
fn find_sep(s: &str, from: usize) -> (r: Option<usize>)
    requires
        from <= s@.len(),
    ensures
        match r {
            Some(k) => from <= k && sep_at(s@, k as int) && forall|j: int|
                from <= j < k ==> !#[trigger] sep_at(s@, j),
            None => forall|j: int| from <= j ==> !#[trigger] sep_at(s@, j),
        },
{
    let n = s.unicode_len();
    let mut i = from;
    while i < n && i + 1 < n
        invariant
            n == s@.len(),
            from <= i <= n,
            forall|j: int| from <= j < i ==> !#[trigger] sep_at(s@, j),
        decreases n - i,
    {
        if s.get_char(i) == '-' && s.get_char(i + 1) == '-' {
            return Some(i);
        }
        i = i + 1;
    }
    None
}

/// Where the kind of a valid identifier ends, and none for any other text.
fn split_id(id: &str) -> (r: Option<usize>)
    ensures
        match r {
            Some(i) => valid_id_at(id@, i as int),
            None => !is_valid_id(id@),
        },
{
    let n = id.unicode_len();
    match find_sep(id, 0) {
        None => {
            assert forall|i: int| !valid_id_at(id@, i) by {
                if valid_id_at(id@, i) {
                    assert(sep_at(id@, i as int));
                }
            }
            None
        },
        Some(i) => {
            let second = find_sep(id, i + 2);
            if second.is_some() || i == 0 {
                assert forall|k: int| !valid_id_at(id@, k) by {
                    if valid_id_at(id@, k) {
                        if k < i {
                            assert(sep_at(id@, k));
                        } else if k > i {
                            assert(sep_at(id@, i as int));
                        } else if let Some(m) = second {
                            assert(sep_at(id@, m as int));
                        }
                    }
                }
                None
            } else {
                let rest = id.substring_char(i + 2, n);
                if uuid_parses(rest) {
                    Some(i)
                } else {
                    assert forall|k: int| !valid_id_at(id@, k) by {
                        if valid_id_at(id@, k) {
                            if k < i {
                                assert(sep_at(id@, k));
                            } else if k > i {
                                assert(sep_at(id@, i as int));
                            }
                        }
                    }
                    None
                }
            }
        },
    }
}

/// Whether two texts are the same.
pub(crate) fn same_text(a: &str, b: &str) -> (r: bool)
    ensures
        r == (a@ == b@),
{
    let n = a.unicode_len();
    if n != b.unicode_len() {
        return false;
    }
    let mut i: usize = 0;
    while i < n
        invariant
            n == a@.len(),
            n == b@.len(),
            0 <= i <= n,
            forall|j: int| 0 <= j < i ==> a@[j] == b@[j],
        decreases n - i,
    {
        if a.get_char(i) != b.get_char(i) {
            return false;
        }
        i = i + 1;
    }
    assert(a@ =~= b@);
    true
}

/// A fresh identifier: `kind`, `--`, and a random UUID.
pub fn generate_maec_id(object_type: &str) -> (r: String)
    ensures
        is_generated_id(object_type@, r@),
        is_plain_kind(object_type@) ==> is_valid_id(r@) && id_kind(r@) == Some(object_type@),
{
    let mut r = String::from_str(object_type);
    r.append("--");
    let u = random_uuid_text();
    r.append(u.as_str());
    proof {
        reveal_strlit("--");
        assert(r@ =~= object_type@ + separator() + u@);
        if is_plain_kind(object_type@) {
            lemma_generated_id_valid(object_type@, r@);
        }
    }
    r
}

/// Whether `id` is a valid identifier: splitting it on `--` gives exactly a
/// non-empty kind and a UUID.
pub fn is_valid_maec_id(id: &str) -> (r: bool)
    ensures
        r == is_valid_id(id@),
{
    split_id(id).is_some()
}

/// The kind segment of a valid identifier; none for any other text.
pub fn extract_type_from_id(id: &str) -> (r: Option<&str>)
    ensures
        match r {
            Some(k) => id_kind(id@) == Some(k@),
            None => id_kind(id@) == None::<Seq<char>>,
        },
{
    match split_id(id) {
        Some(i) => {
            proof {
                lemma_id_kind_at(id@, i as int);
            }
            Some(id.substring_char(0, i))
        },
        None => None,
    }
}

/// Whether `id` is a valid identifier whose kind is `expected_type`.
pub fn is_valid_ref_for_type(id: &str, expected_type: &str) -> (r: bool)
    ensures
        r == (id_kind(id@) == Some(expected_type@)),
{
    match extract_type_from_id(id) {
        Some(k) => same_text(k, expected_type),
        None => false,
    }
}

} // verus!
