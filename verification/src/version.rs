//! Semantic version tags of the shape `v<major>.<minor>.<patch>[suffix]`.
//!
//! A tag is read greedily: the run of decimal digits after `v` up to the first
//! dot is the major component, then the minor component, then the patch
//! component; whatever follows the patch run is the suffix, preserved verbatim
//! across transformations. Because each digit run is maximal, the suffix of a
//! well-formed tag never starts with a digit.

use vstd::prelude::*;
use vstd::string::StrSliceExecFns;
use vstd::string::StringExecFns;

use crate::error::ReleaseError;

verus! {

// ---------------------------------------------------------------------------
// Decimal digits
// ---------------------------------------------------------------------------

/// `c` is one of the ASCII digits `0` through `9`.
pub open spec fn is_dec_digit(c: char) -> bool {
    48 <= c as int && c as int <= 57
}

/// Every character of `s` is a decimal digit.
pub open spec fn all_dec_digits(s: Seq<char>) -> bool {
    forall|i: int| 0 <= i < s.len() ==> is_dec_digit(#[trigger] s[i])
}

/// The numeric value of a digit character.
pub open spec fn digit_val(c: char) -> nat {
    (c as int - 48) as nat
}

/// The digit character for a value below ten.
pub open spec fn digit_char(d: nat) -> char {
    if d == 0 {
        '0'
    } else if d == 1 {
        '1'
    } else if d == 2 {
        '2'
    } else if d == 3 {
        '3'
    } else if d == 4 {
        '4'
    } else if d == 5 {
        '5'
    } else if d == 6 {
        '6'
    } else if d == 7 {
        '7'
    } else if d == 8 {
        '8'
    } else {
        '9'
    }
}

/// The numeric value of a digit string, most significant digit first.
pub open spec fn digits_val(s: Seq<char>) -> nat
    decreases s.len(),
{
    if s.len() == 0 {
        0
    } else {
        digits_val(s.drop_last()) * 10 + digit_val(s.last())
    }
}

/// The decimal representation of `n`, without leading zeros.
pub open spec fn dec_rep(n: nat) -> Seq<char>
    decreases n,
{
    if n < 10 {
        seq![digit_char(n)]
    } else {
        dec_rep(n / 10).push(digit_char(n % 10))
    }
}

/// The longest all-digit prefix of `s`.
pub open spec fn leading_digits(s: Seq<char>) -> Seq<char>
    decreases s.len(),
{
    if s.len() > 0 && is_dec_digit(s[0]) {
        seq![s[0]] + leading_digits(s.drop_first())
    } else {
        Seq::empty()
    }
}

// ---------------------------------------------------------------------------
// The tag grammar
// ---------------------------------------------------------------------------

/// The four components of a well-formed tag.
pub struct TagParts {
    pub major: Seq<char>,
    pub minor: Seq<char>,
    pub patch: Seq<char>,
    pub suffix: Seq<char>,
}

/// A tag assembled from its components.
pub open spec fn render_tag(major: Seq<char>, minor: Seq<char>, patch: Seq<char>, suffix: Seq<char>) -> Seq<char> {
    seq!['v'] + major + seq!['.'] + minor + seq!['.'] + patch + suffix
}

/// The greedy decomposition of a tag: `v`, then maximal digit runs for major,
/// minor and patch separated by dots, then the suffix. `None` when the tag
/// does not have that shape.
pub open spec fn spec_parse_tag(t: Seq<char>) -> Option<TagParts> {
    if t.len() == 0 || t[0] != 'v' {
        None
    } else {
        let after_v = t.drop_first();
        let major = leading_digits(after_v);
        let after_major = after_v.skip(major.len() as int);
        if major.len() == 0 || after_major.len() == 0 || after_major[0] != '.' {
            None
        } else {
            let rest_minor = after_major.drop_first();
            let minor = leading_digits(rest_minor);
            let after_minor = rest_minor.skip(minor.len() as int);
            if minor.len() == 0 || after_minor.len() == 0 || after_minor[0] != '.' {
                None
            } else {
                let rest_patch = after_minor.drop_first();
                let patch = leading_digits(rest_patch);
                if patch.len() == 0 {
                    None
                } else {
                    Some(TagParts { major, minor, patch, suffix: rest_patch.skip(patch.len() as int) })
                }
            }
        }
    }
}

/// `t` is a well-formed tag.
pub open spec fn tag_wf(t: Seq<char>) -> bool {
    spec_parse_tag(t) is Some
}

/// The value of the patch component of a well-formed tag.
pub open spec fn patch_val(t: Seq<char>) -> nat {
    digits_val(spec_parse_tag(t)->Some_0.patch)
}

/// The tag with its patch component incremented by one, suffix preserved.
/// The incremented component is rendered canonically, without leading zeros.
pub open spec fn incremented_tag(t: Seq<char>) -> Seq<char> {
    let p = spec_parse_tag(t)->Some_0;
    render_tag(p.major, p.minor, dec_rep((digits_val(p.patch) + 1) as nat), p.suffix)
}

/// The `<major>.<minor>` front of a well-formed tag, components verbatim.
pub open spec fn minor_version_of(t: Seq<char>) -> Seq<char> {
    let p = spec_parse_tag(t)->Some_0;
    p.major + seq!['.'] + p.minor
}

// ---------------------------------------------------------------------------
// Lemmas about digit runs
// ---------------------------------------------------------------------------

/// `leading_digits(s)` is the prefix of `s` up to the first non-digit.
pub proof fn lemma_leading_digits_prefix(s: Seq<char>)
    ensures
        leading_digits(s).len() <= s.len(),
        leading_digits(s) =~= s.take(leading_digits(s).len() as int),
        all_dec_digits(leading_digits(s)),
        leading_digits(s).len() < s.len() ==> !is_dec_digit(s[leading_digits(s).len() as int]),
    decreases s.len(),
{
    if s.len() > 0 && is_dec_digit(s[0]) {
        lemma_leading_digits_prefix(s.drop_first());
    }
}

/// A digit prefix followed by a rest that does not start with a digit is
/// exactly the longest all-digit prefix.
pub proof fn lemma_leading_digits_of_concat(d: Seq<char>, rest: Seq<char>)
    requires
        all_dec_digits(d),
        rest.len() == 0 || !is_dec_digit(rest[0]),
    ensures
        leading_digits(d + rest) =~= d,
    decreases d.len(),
{
    if d.len() == 0 {
        assert(d + rest =~= rest);
    } else {
        assert((d + rest)[0] == d[0]);
        assert((d + rest).drop_first() =~= d.drop_first() + rest);
        lemma_leading_digits_of_concat(d.drop_first(), rest);
        assert(leading_digits(d + rest) =~= seq![d[0]] + d.drop_first());
        assert(seq![d[0]] + d.drop_first() =~= d);
    }
}

/// The bounded scan of an exec parser matches `leading_digits`: if the
/// characters of `s` before `k` are digits and the one at `k` (if any) is not,
/// the longest all-digit prefix is exactly `s.take(k)`.
pub proof fn lemma_leading_digits_exact(s: Seq<char>, k: int)
    requires
        0 <= k <= s.len(),
        forall|i: int| 0 <= i < k ==> is_dec_digit(#[trigger] s[i]),
        k == s.len() || !is_dec_digit(s[k]),
    ensures
        leading_digits(s) =~= s.take(k),
{
    assert(s =~= s.take(k) + s.skip(k));
    lemma_leading_digits_of_concat(s.take(k), s.skip(k));
}

/// Extending a digit string by one digit multiplies its value by ten and adds
/// the digit.
pub proof fn lemma_digits_val_push(s: Seq<char>, c: char)
    ensures
        digits_val(s.push(c)) == digits_val(s) * 10 + digit_val(c),
{
    assert(s.push(c).drop_last() =~= s);
    assert(s.push(c).last() == c);
}

/// The decimal representation of `n` is a nonempty digit string whose value
/// is `n`.
pub proof fn lemma_dec_rep(n: nat)
    ensures
        dec_rep(n).len() >= 1,
        all_dec_digits(dec_rep(n)),
        digits_val(dec_rep(n)) == n,
    decreases n,
{
    if n < 10 {
        assert(seq![digit_char(n)].drop_last() == Seq::<char>::empty());
        assert(digits_val(Seq::<char>::empty()) == 0);
        assert(seq![digit_char(n)].last() == digit_char(n));
        assert(digits_val(seq![digit_char(n)]) == digit_val(digit_char(n)));
    } else {
        lemma_dec_rep(n / 10);
        lemma_digits_val_push(dec_rep(n / 10), digit_char(n % 10));
        assert(digit_val(digit_char(n % 10)) == n % 10);
        assert((n / 10) * 10 + n % 10 == n) by {
            vstd::arithmetic::div_mod::lemma_fundamental_div_mod(n as int, 10);
        }
        assert forall|i: int| 0 <= i < dec_rep(n).len() implies is_dec_digit(#[trigger] dec_rep(n)[i]) by {
            if i < dec_rep(n / 10).len() {
                assert(dec_rep(n)[i] == dec_rep(n / 10)[i]);
            } else {
                assert(dec_rep(n)[i] == digit_char(n % 10));
            }
        }
    }
}

// ---------------------------------------------------------------------------
// Parsing and rendering are inverse
// ---------------------------------------------------------------------------

/// What a successful parse says of the tag: the components reassemble it,
/// each numeric component is a nonempty digit run, and the suffix does not
/// start with a digit.
pub proof fn lemma_parse_tag_sound(t: Seq<char>)
    requires
        tag_wf(t),
    ensures
        ({
            let p = spec_parse_tag(t)->Some_0;
            &&& t =~= render_tag(p.major, p.minor, p.patch, p.suffix)
            &&& p.major.len() > 0 && all_dec_digits(p.major)
            &&& p.minor.len() > 0 && all_dec_digits(p.minor)
            &&& p.patch.len() > 0 && all_dec_digits(p.patch)
            &&& p.suffix.len() == 0 || !is_dec_digit(p.suffix[0])
        }),
{
    let after_v = t.drop_first();
    let major = leading_digits(after_v);
    let after_major = after_v.skip(major.len() as int);
    let rest_minor = after_major.drop_first();
    let minor = leading_digits(rest_minor);
    let after_minor = rest_minor.skip(minor.len() as int);
    let rest_patch = after_minor.drop_first();
    let patch = leading_digits(rest_patch);
    let suffix = rest_patch.skip(patch.len() as int);
    lemma_leading_digits_prefix(after_v);
    lemma_leading_digits_prefix(rest_minor);
    lemma_leading_digits_prefix(rest_patch);
    assert(t =~= seq!['v'] + major + seq!['.'] + minor + seq!['.'] + patch + suffix);
    if suffix.len() > 0 {
        assert(suffix[0] == rest_patch[patch.len() as int]);
    }
}

/// Reassembling well-shaped components parses back to exactly those
/// components.
pub proof fn lemma_parse_render(major: Seq<char>, minor: Seq<char>, patch: Seq<char>, suffix: Seq<char>)
    requires
        major.len() > 0,
        all_dec_digits(major),
        minor.len() > 0,
        all_dec_digits(minor),
        patch.len() > 0,
        all_dec_digits(patch),
        suffix.len() == 0 || !is_dec_digit(suffix[0]),
    ensures
        ({
            let t = render_tag(major, minor, patch, suffix);
            &&& tag_wf(t)
            &&& spec_parse_tag(t)->Some_0.major =~= major
            &&& spec_parse_tag(t)->Some_0.minor =~= minor
            &&& spec_parse_tag(t)->Some_0.patch =~= patch
            &&& spec_parse_tag(t)->Some_0.suffix =~= suffix
        }),
{
    let t = render_tag(major, minor, patch, suffix);
    let after_v = t.drop_first();
    assert(after_v =~= major + (seq!['.'] + minor + seq!['.'] + patch + suffix));
    lemma_leading_digits_of_concat(major, seq!['.'] + minor + seq!['.'] + patch + suffix);
    assert(leading_digits(after_v) =~= major);
    let after_major = after_v.skip(major.len() as int);
    assert(after_major =~= seq!['.'] + minor + seq!['.'] + patch + suffix);
    let rest_minor = after_major.drop_first();
    assert(rest_minor =~= minor + (seq!['.'] + patch + suffix));
    lemma_leading_digits_of_concat(minor, seq!['.'] + patch + suffix);
    assert(leading_digits(rest_minor) =~= minor);
    let after_minor = rest_minor.skip(minor.len() as int);
    assert(after_minor =~= seq!['.'] + patch + suffix);
    let rest_patch = after_minor.drop_first();
    assert(rest_patch =~= patch + suffix);
    lemma_leading_digits_of_concat(patch, suffix);
    assert(leading_digits(rest_patch) =~= patch);
    assert(rest_patch.skip(patch.len() as int) =~= suffix);
}

/// Incrementing the patch component of a well-formed tag yields a well-formed
/// tag whose patch value has grown by exactly one and whose major, minor and
/// suffix components are unchanged.
pub proof fn lemma_increment_patch(t: Seq<char>)
    requires
        tag_wf(t),
    ensures
        ({
            let p = spec_parse_tag(t)->Some_0;
            let r = spec_parse_tag(incremented_tag(t));
            &&& tag_wf(incremented_tag(t))
            &&& r->Some_0.major =~= p.major
            &&& r->Some_0.minor =~= p.minor
            &&& r->Some_0.suffix =~= p.suffix
            &&& digits_val(r->Some_0.patch) == digits_val(p.patch) + 1
        }),
{
    let p = spec_parse_tag(t)->Some_0;
    lemma_parse_tag_sound(t);
    lemma_dec_rep((digits_val(p.patch) + 1) as nat);
    lemma_parse_render(p.major, p.minor, dec_rep((digits_val(p.patch) + 1) as nat), p.suffix);
    assert(digits_val(spec_parse_tag(incremented_tag(t))->Some_0.patch)
        == digits_val(dec_rep((digits_val(p.patch) + 1) as nat)));
}

// ---------------------------------------------------------------------------
// Executable parsing
// ---------------------------------------------------------------------------

/// Scans the maximal digit run of `tag` from `start` and returns the position
/// after it.
fn scan_digits(tag: &str, start: usize, n: usize) -> (end: usize)
    requires
        n == tag@.len(),
        start <= n,
    ensures
        start <= end <= n,
        leading_digits(tag@.skip(start as int)) =~= tag@.subrange(start as int, end as int),
        end == n || !is_dec_digit(tag@[end as int]),
{
    let mut end: usize = start;
    loop
        invariant
            n == tag@.len(),
            start <= end <= n,
            forall|i: int| start <= i < end ==> is_dec_digit(#[trigger] tag@[i]),
        ensures
            start <= end <= n,
            forall|i: int| start <= i < end ==> is_dec_digit(#[trigger] tag@[i]),
            end == n || !is_dec_digit(tag@[end as int]),
        decreases n - end,
    {
        if end == n {
            break;
        }
        let c = tag.get_char(end);
        let u = c as u32;
        if !(48 <= u && u <= 57) {
            break;
        }
        end = end + 1;
    }
    proof {
        lemma_leading_digits_exact(tag@.skip(start as int), end - start);
        assert(tag@.skip(start as int).take(end - start) =~= tag@.subrange(start as int, end as int));
    }
    end
}

/// Parses `tag` against the grammar and returns the positions right after the
/// major, minor and patch runs, or `None` when the tag is malformed.
fn parse_positions(tag: &str) -> (r: Option<(usize, usize, usize)>)
    ensures
        match r {
            Some(pos) => {
                &&& tag_wf(tag@)
                &&& 1 <= pos.0 && pos.0 < pos.1 && pos.1 < pos.2 && pos.2 <= tag@.len()
                &&& spec_parse_tag(tag@)->Some_0.major =~= tag@.subrange(1, pos.0 as int)
                &&& spec_parse_tag(tag@)->Some_0.minor =~= tag@.subrange(pos.0 as int + 1, pos.1 as int)
                &&& spec_parse_tag(tag@)->Some_0.patch =~= tag@.subrange(pos.1 as int + 1, pos.2 as int)
                &&& spec_parse_tag(tag@)->Some_0.suffix =~= tag@.skip(pos.2 as int)
                &&& tag@[pos.0 as int] == '.' && tag@[pos.1 as int] == '.'
            },
            None => !tag_wf(tag@),
        },
{
    let ghost t = tag@;
    let n = tag.unicode_len();
    if n == 0 {
        return None;
    }
    if tag.get_char(0) != 'v' {
        return None;
    }
    proof {
        assert(t.drop_first() =~= t.skip(1));
    }
    let major_end = scan_digits(tag, 1, n);
    let ghost major = leading_digits(t.skip(1));
    if major_end == 1 {
        proof {
            assert(major =~= t.subrange(1, 1));
            assert(major.len() == 0);
        }
        return None;
    }
    proof {
        assert(t.skip(1).skip(major.len() as int) =~= t.skip(major_end as int));
    }
    if major_end == n {
        return None;
    }
    if tag.get_char(major_end) != '.' {
        proof {
            assert(t.skip(major_end as int)[0] == t[major_end as int]);
        }
        return None;
    }
    proof {
        assert(t.skip(major_end as int).drop_first() =~= t.skip(major_end as int + 1));
    }
    let minor_end = scan_digits(tag, major_end + 1, n);
    let ghost minor = leading_digits(t.skip(major_end as int + 1));
    if minor_end == major_end + 1 {
        proof {
            assert(minor.len() == 0);
        }
        return None;
    }
    proof {
        assert(t.skip(major_end as int + 1).skip(minor.len() as int) =~= t.skip(minor_end as int));
    }
    if minor_end == n {
        return None;
    }
    if tag.get_char(minor_end) != '.' {
        proof {
            assert(t.skip(minor_end as int)[0] == t[minor_end as int]);
        }
        return None;
    }
    proof {
        assert(t.skip(minor_end as int).drop_first() =~= t.skip(minor_end as int + 1));
    }
    let patch_end = scan_digits(tag, minor_end + 1, n);
    let ghost patch = leading_digits(t.skip(minor_end as int + 1));
    if patch_end == minor_end + 1 {
        proof {
            assert(patch.len() == 0);
        }
        return None;
    }
    proof {
        assert(t.skip(minor_end as int + 1).skip(patch.len() as int) =~= t.skip(patch_end as int));
    }
    Some((major_end, minor_end, patch_end))
}

/// Whether `tag` is a well-formed `v<major>.<minor>.<patch>[suffix]` tag.
pub fn validate_tag(tag: &str) -> (r: bool)
    ensures
        r == tag_wf(tag@),
{
    parse_positions(tag).is_some()
}

/// The numeric value of the digit run at `[start, end)`, saturated just above
/// the 32-bit unsigned range.
fn digit_run_value(tag: &str, start: usize, end: usize) -> (val: u64)
    requires
        start <= end <= tag@.len(),
        forall|i: int| start <= i < end ==> is_dec_digit(#[trigger] tag@[i]),
    ensures
        val <= 4294967296,
        val < 4294967296 ==> val == digits_val(tag@.subrange(start as int, end as int)),
        val == 4294967296 ==> digits_val(tag@.subrange(start as int, end as int)) >= 4294967296,
{
    let mut val: u64 = 0;
    let mut i: usize = start;
    while i < end
        invariant
            start <= i <= end <= tag@.len(),
            forall|j: int| start <= j < end ==> is_dec_digit(#[trigger] tag@[j]),
            val <= 4294967296,
            val < 4294967296 ==> val == digits_val(tag@.subrange(start as int, i as int)),
            val == 4294967296 ==> digits_val(tag@.subrange(start as int, i as int)) >= 4294967296,
        decreases end - i,
    {
        let c = tag.get_char(i);
        let d = (c as u32 - 48) as u64;
        proof {
            assert(d == digit_val(tag@[i as int]));
            assert(tag@.subrange(start as int, i as int + 1)
                =~= tag@.subrange(start as int, i as int).push(tag@[i as int]));
            lemma_digits_val_push(tag@.subrange(start as int, i as int), tag@[i as int]);
        }
        if val < 4294967296 {
            val = val * 10 + d;
            if val > 4294967296 {
                val = 4294967296;
            }
        }
        i = i + 1;
    }
    val
}

/// One digit as a string slice.
fn digit_str(d: u32) -> (r: &'static str)
    requires
        d < 10,
    ensures
        r@ == seq![digit_char(d as nat)],
{
    let s = match d {
        0 => "0",
        1 => "1",
        2 => "2",
        3 => "3",
        4 => "4",
        5 => "5",
        6 => "6",
        7 => "7",
        8 => "8",
        _ => "9",
    };
    proof {
        reveal_strlit("0");
        reveal_strlit("1");
        reveal_strlit("2");
        reveal_strlit("3");
        reveal_strlit("4");
        reveal_strlit("5");
        reveal_strlit("6");
        reveal_strlit("7");
        reveal_strlit("8");
        reveal_strlit("9");
        assert(s@ =~= seq![digit_char(d as nat)]);
    }
    s
}

/// Appends the decimal representation of `n` to `out`.
fn push_decimal(n: u32, out: &mut String)
    ensures
        final(out)@ == old(out)@ + dec_rep(n as nat),
    decreases n,
{
    if n >= 10 {
        push_decimal(n / 10, out);
    }
    out.append(digit_str(n % 10));
    proof {
        if n >= 10 {
            assert(dec_rep(n as nat) == dec_rep(n as nat / 10).push(digit_char(n as nat % 10)));
            assert(old(out)@ + dec_rep(n as nat / 10) + seq![digit_char(n as nat % 10)]
                =~= old(out)@ + dec_rep(n as nat));
        } else {
            assert(old(out)@ + seq![digit_char(n as nat)] =~= old(out)@ + dec_rep(n as nat));
        }
    }
}

// ---------------------------------------------------------------------------
// Public version operations
// ---------------------------------------------------------------------------

/// Parses a semantic version tag and increments its patch component by one,
/// preserving major, minor and the suffix verbatim.
pub fn increment_patch_version(tag: &str) -> (r: Result<String, ReleaseError>)
    ensures
        match r {
            Ok(s) => tag_wf(tag@) && patch_val(tag@) + 1 <= u32::MAX && s@ == incremented_tag(tag@),
            Err(e) => {
                ||| (e is InvalidTagFormat && !tag_wf(tag@))
                ||| (e is PatchOverflow && tag_wf(tag@) && patch_val(tag@) + 1 > u32::MAX)
            },
        },
{
    let ghost t = tag@;
    match parse_positions(tag) {
        None => Err(ReleaseError::InvalidTagFormat),
        Some((_, minor_end, patch_end)) => {
            proof {
                lemma_parse_tag_sound(t);
                let p = spec_parse_tag(t)->Some_0;
                assert forall|i: int| minor_end + 1 <= i < patch_end implies is_dec_digit(#[trigger] t[i]) by {
                    assert(t[i] == p.patch[i - (minor_end + 1)]);
                }
            }
            let val = digit_run_value(tag, minor_end + 1, patch_end);
            if val >= 4294967295 {
                return Err(ReleaseError::PatchOverflow);
            }
            let new_patch = (val + 1) as u32;
            let n = tag.unicode_len();
            let mut out = String::from_str(tag.substring_char(0, minor_end + 1));
            push_decimal(new_patch, &mut out);
            out.append(tag.substring_char(patch_end, n));
            proof {
                let p = spec_parse_tag(t)->Some_0;
                assert(t.subrange(0, minor_end as int + 1)
                    =~= seq!['v'] + p.major + seq!['.'] + p.minor + seq!['.']);
                assert(out@ =~= incremented_tag(t));
            }
            Ok(out)
        },
    }
}

/// The `<major>.<minor>` front of a tag, components verbatim (`v1.2.3` gives
/// `1.2`).
pub fn get_minor_version(tag: &str) -> (r: Result<String, ReleaseError>)
    ensures
        match r {
            Ok(s) => tag_wf(tag@) && s@ == minor_version_of(tag@),
            Err(e) => e is InvalidTagFormat && !tag_wf(tag@),
        },
{
    let ghost t = tag@;
    match parse_positions(tag) {
        None => Err(ReleaseError::InvalidTagFormat),
        Some((_, minor_end, _)) => {
            let s = String::from_str(tag.substring_char(1, minor_end));
            proof {
                assert(t.subrange(1, minor_end as int) =~= minor_version_of(t));
            }
            Ok(s)
        },
    }
}

/// The convention branch of a tag: `release/v<major>.<minor>.x`.
pub open spec fn release_branch_of(t: Seq<char>) -> Seq<char> {
    "release/v"@ + minor_version_of(t) + ".x"@
}

/// The release branch name of a tag under the naming convention
/// `release/v<major>.<minor>.x`.
pub fn get_release_branch_name(tag: &str) -> (r: Result<String, ReleaseError>)
    ensures
        match r {
            Ok(s) => tag_wf(tag@) && s@ == release_branch_of(tag@),
            Err(e) => e is InvalidTagFormat && !tag_wf(tag@),
        },
{
    let ghost t = tag@;
    match parse_positions(tag) {
        None => Err(ReleaseError::InvalidTagFormat),
        Some((_, minor_end, _)) => {
            let mut s = String::from_str("release/v");
            s.append(tag.substring_char(1, minor_end));
            s.append(".x");
            proof {
                assert(t.subrange(1, minor_end as int) =~= minor_version_of(t));
                assert(s@ =~= release_branch_of(t));
            }
            Ok(s)
        },
    }
}

} // verus!
