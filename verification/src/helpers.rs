//! Names and texts shared by the whole service: slugs and human durations.

use vstd::prelude::*;
use vstd::string::*;
use crate::strings::push_char;

verus! {

/// What `slug::slugify` returns for a text.
pub uninterp spec fn slug_of(s: Seq<char>) -> Seq<char>;

/// A character that may stand in a slug: lowercase ASCII letter, digit or `sep`.
pub open spec fn is_slug_char(c: char, sep: char) -> bool {
    ('a' <= c && c <= 'z') || ('0' <= c && c <= '9') || c == sep
}

/// A slug over the separator `sep`: only slug characters, the separator never
/// first, never last and never twice in a row.
pub open spec fn is_slug_with(t: Seq<char>, sep: char) -> bool {
    &&& forall|i: int| 0 <= i < t.len() ==> is_slug_char(#[trigger] t[i], sep)
    &&& t.len() > 0 ==> t[0] != sep && t[t.len() - 1] != sep
    &&& forall|i: int| 0 <= i < t.len() - 1 ==> !(#[trigger] t[i] == sep && t[i + 1] == sep)
}

/// Each `_` of a text turned into `-`.
pub open spec fn underscores_to_dashes(s: Seq<char>) -> Seq<char> {
    s.map_values(|c: char| if c == '_' { '-' } else { c })
}

/// `slug::slugify`: lowercases ASCII letters, transliterates other letters to
/// ASCII and joins the runs of alphanumerics with single `-`. Its documentation
/// promises that the result holds only `a-z`, `0-9` and `-`, never starts or
/// ends with `-` and never holds two `-` in a row; the exact text it gives is
/// left to the name `slug_of`. Its code walks an ASCII text character by
/// character, keeping `a-z` and `0-9` and writing one `-` for a run of other
/// characters that neither starts nor ends the text: so a text of `a-z`, `0-9`
/// and single inner `_` comes back with `-` in place of each `_`.
#[verifier::external_body]
pub(crate) fn slug_slugify(s: &str) -> (r: String)
    ensures
        r@ == slug_of(s@),
        is_slug_with(r@, '-'),
        is_slug_with(s@, '_') ==> r@ == underscores_to_dashes(s@),
{
    slug::slugify(s)
}

/// Each `-` of a text turned into `_`.
pub open spec fn dashes_to_underscores(s: Seq<char>) -> Seq<char> {
    s.map_values(|c: char| if c == '-' { '_' } else { c })
}

/// The identifier form of a name: its slug, with `_` in place of `-`.
/// The result holds only `a-z`, `0-9` and `_`, never starts or ends with `_`
/// and never holds two `_` in a row; a name already of that form comes back
/// unchanged, so the identifier form of an identifier is itself.
pub fn slugify(name: &str) -> (r: String)
    ensures
        r@ == dashes_to_underscores(slug_of(name@)),
        is_slug_with(r@, '_'),
        is_slug_with(name@, '_') ==> r@ == name@,
{
    let slug = slug_slugify(name);
    let s = slug.as_str();
    let n = s.unicode_len();
    let mut r = String::new();
    let mut i: usize = 0;
    while i < n
        invariant
            n == s@.len(),
            i <= n,
            s@ == slug_of(name@),
            r@ == dashes_to_underscores(s@.subrange(0, i as int)),
        decreases n - i,
    {
        let c = s.get_char(i);
        if c == '-' {
            push_char(&mut r, '_');
        } else {
            push_char(&mut r, c);
        }
        proof {
            assert(s@.subrange(0, i + 1) =~= s@.subrange(0, i as int).push(c));
            assert(r@ =~= dashes_to_underscores(s@.subrange(0, i + 1)));
        }
        i += 1;
    }
    proof {
        assert(s@.subrange(0, n as int) =~= s@);
        let t = r@;
        let u = s@;
        assert(t.len() == u.len());
        assert forall|j: int| 0 <= j < t.len() implies is_slug_char(#[trigger] t[j], '_') by {
            assert(is_slug_char(u[j], '-'));
        }
        assert forall|j: int| 0 <= j < t.len() - 1 implies !(#[trigger] t[j] == '_' && t[j + 1] == '_') by {
            assert(!(u[j] == '-' && u[j + 1] == '-'));
            assert(is_slug_char(u[j], '-'));
            assert(is_slug_char(u[j + 1], '-'));
        }
        if t.len() > 0 {
            assert(is_slug_char(u[0], '-'));
            assert(is_slug_char(u[u.len() - 1], '-'));
        }
        if is_slug_with(name@, '_') {
            assert forall|j: int| 0 <= j < t.len() implies #[trigger] t[j] == name@[j] by {
                assert(is_slug_char(name@[j], '_'));
            }
            assert(t =~= name@);
        }
    }
    r
}

/// A span of time, as the service receives it: a signed duration (seconds and
/// nanoseconds) or an unsigned one.
#[allow(inconsistent_fields)]
pub enum DurationConvert {
    ChronoDuration { secs: i64, nanos: u32 },
    StdDuration { secs: u64, nanos: u32 },
}

/// The largest whole-second count of a signed duration (`TimeDelta::MAX`).
pub open spec fn max_delta_secs() -> int { 9223372036854775 }

/// The nanoseconds of `TimeDelta::MAX` beyond its whole seconds.
pub open spec fn max_delta_nanos() -> int { 807000000 }

/// The smallest whole-second count of a signed duration (`TimeDelta::MIN`).
pub open spec fn min_delta_secs() -> int { -9223372036854776 }

/// The nanoseconds of `TimeDelta::MIN` beyond its whole seconds.
pub open spec fn min_delta_nanos() -> int { 193000000 }

/// A signed duration that `TimeDelta::new` accepts.
pub open spec fn is_valid_delta(secs: int, nanos: int) -> bool {
    &&& 0 <= nanos < 1_000_000_000
    &&& min_delta_secs() <= secs <= max_delta_secs()
    &&& secs == max_delta_secs() ==> nanos <= max_delta_nanos()
    &&& secs == min_delta_secs() ==> nanos >= min_delta_nanos()
}

/// A duration that `pretty_format` accepts: what `TimeDelta::new` and
/// `TimeDelta::from_std` accept, the latter on an unsigned duration.
pub open spec fn is_formattable(d: DurationConvert) -> bool {
    match d {
        DurationConvert::ChronoDuration { secs, nanos } => is_valid_delta(secs as int, nanos as int),
        DurationConvert::StdDuration { secs, nanos } => is_valid_delta(secs as int, nanos as int),
    }
}

/// The signed duration a span stands for, as seconds and nanoseconds.
pub open spec fn delta_of(d: DurationConvert) -> (int, int) {
    match d {
        DurationConvert::ChronoDuration { secs, nanos } => (secs as int, nanos as int),
        DurationConvert::StdDuration { secs, nanos } => (secs as int, nanos as int),
    }
}

/// What `HumanTime::to_text_en(Accuracy::Precise, Tense::Present)` gives for the
/// signed duration of `secs` seconds and `nanos` nanoseconds.
pub uninterp spec fn humanized_precise(secs: int, nanos: int) -> Seq<char>;

/// `chrono_humanize::HumanTime::to_text_en` with precise accuracy and present
/// tense, on the `chrono::TimeDelta` of `secs` seconds and `nanos` nanoseconds;
/// the text it writes (such as "1 hour, 1 minute and 1 second") is left to the
/// name `humanized_precise`.
#[verifier::external_body]
fn humanize_precise(secs: i64, nanos: u32) -> (r: String)
    requires
        is_valid_delta(secs as int, nanos as int),
    ensures
        r@ == humanized_precise(secs as int, nanos as int),
{
    let delta = chrono::TimeDelta::new(secs, nanos).unwrap_or_default();
    chrono_humanize::HumanTime::from(delta).to_text_en(chrono_humanize::Accuracy::Precise, chrono_humanize::Tense::Present)
}

/// A duration in English words, with every unit spelled out.
pub fn pretty_format(duration: DurationConvert) -> (r: String)
    requires
        is_formattable(duration),
    ensures
        r@ == humanized_precise(delta_of(duration).0, delta_of(duration).1),
{
    match duration {
        DurationConvert::ChronoDuration { secs, nanos } => humanize_precise(secs, nanos),
        DurationConvert::StdDuration { secs, nanos } => humanize_precise(secs as i64, nanos),
    }
}

} // verus!
