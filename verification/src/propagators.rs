//! The propagator registry: maps configured propagator names to
//! context-propagation implementations and composes them. Names come as a
//! comma-separated list; each is trimmed and lower-cased, then matched
//! against a fixed table. Unrecognized names are dropped silently — a
//! deliberate leniency, since propagator names are free-form and
//! forward-compatible. An empty resolved set leaves the previously
//! installed global propagator unchanged.

use opentelemetry::propagation::TextMapPropagator;
use opentelemetry_sdk::propagation::{BaggagePropagator, TraceContextPropagator};
use vstd::prelude::*;

verus! {

/// A recognized context-propagation strategy.
#[derive(Clone, Copy, PartialEq, Eq, Structural, Debug)]
pub enum PropagatorKind {
    /// The W3C trace-context propagator.
    TraceContext,
    /// The W3C baggage propagator.
    Baggage,
}

/// The propagator list used when the environment supplies none.
pub const DEFAULT_PROPAGATORS: &'static str = "tracecontext,baggage";

/// The whitespace that trimming strips from either end of a name.
pub open spec fn is_space(c: char) -> bool {
    c == ' ' || c == '\t' || c == '\n' || c == '\r'
}

/// One character lower-cased, ASCII-wise: letters `A` through `Z` move to
/// their lower-case forms, every other character stays.
pub open spec fn lower_char(c: char) -> char {
    if 'A' <= c && c <= 'Z' {
        (((c as u8) + 32) as u8) as char
    } else {
        c
    }
}

/// A whole name lower-cased character by character.
pub open spec fn lower_seq(s: Seq<char>) -> Seq<char> {
    s.map(|i: int, c: char| lower_char(c))
}

/// Leading whitespace stripped.
pub open spec fn trim_start_spec(s: Seq<char>) -> Seq<char>
    decreases s.len(),
{
    if s.len() > 0 && is_space(s[0]) {
        trim_start_spec(s.drop_first())
    } else {
        s
    }
}

/// Trailing whitespace stripped.
pub open spec fn trim_end_spec(s: Seq<char>) -> Seq<char>
    decreases s.len(),
{
    if s.len() > 0 && is_space(s.last()) {
        trim_end_spec(s.drop_last())
    } else {
        s
    }
}

/// A name as matching sees it: trimmed on both ends, then lower-cased.
pub open spec fn normalize(s: Seq<char>) -> Seq<char> {
    lower_seq(trim_end_spec(trim_start_spec(s)))
}

/// The fixed table: which propagator a normalized name denotes.
pub open spec fn kind_of_name(s: Seq<char>) -> Option<PropagatorKind> {
    if s == "tracecontext"@ {
        Some(PropagatorKind::TraceContext)
    } else if s == "baggage"@ {
        Some(PropagatorKind::Baggage)
    } else {
        None
    }
}

/// The comma-separated names of a list, in order. An empty list holds one
/// empty name, and so does each empty stretch between two commas.
pub open spec fn split_names(s: Seq<char>) -> Seq<Seq<char>>
    decreases s.len(),
{
    if s.len() == 0 {
        seq![Seq::<char>::empty()]
    } else if s[0] == ',' {
        seq![Seq::<char>::empty()] + split_names(s.drop_first())
    } else {
        let rest = split_names(s.drop_first());
        seq![seq![s[0]] + rest[0]] + rest.drop_first()
    }
}

/// The propagators a sequence of names resolves to: each name normalized
/// and looked up, unrecognized ones dropped, input order kept.
pub open spec fn kinds_of(names: Seq<Seq<char>>) -> Seq<PropagatorKind>
    decreases names.len(),
{
    if names.len() == 0 {
        Seq::empty()
    } else {
        match kind_of_name(normalize(names[0])) {
            Some(k) => seq![k] + kinds_of(names.drop_first()),
            None => kinds_of(names.drop_first()),
        }
    }
}

/// What a comma-separated list resolves to.
pub open spec fn resolve_spec(s: Seq<char>) -> Seq<PropagatorKind> {
    kinds_of(split_names(s))
}

/// Splitting always yields at least one name.
proof fn lemma_split_names_nonempty(s: Seq<char>)
    ensures
        split_names(s).len() >= 1,
    decreases s.len(),
{
    if s.len() == 0 {
    } else {
        lemma_split_names_nonempty(s.drop_first());
    }
}

/// Resolution distributes over appending one more name to a list.
proof fn lemma_kinds_of_push(names: Seq<Seq<char>>, t: Seq<char>)
    ensures
        kinds_of(names.push(t)) == kinds_of(names) + kinds_of(seq![t]),
    decreases names.len(),
{
    if names.len() == 0 {
        assert(names.push(t) =~= seq![t]);
        assert(kinds_of(names) + kinds_of(seq![t]) =~= kinds_of(seq![t]));
    } else {
        assert(names.push(t)[0] == names[0]);
        assert(names.push(t).drop_first() =~= names.drop_first().push(t));
        lemma_kinds_of_push(names.drop_first(), t);
        match kind_of_name(normalize(names[0])) {
            Some(k) => {
                assert(kinds_of(names.push(t)) =~= kinds_of(names) + kinds_of(seq![t]));
            },
            None => {
            },
        }
    }
}

/// A one-name list resolves to that name's propagator, or to nothing.
proof fn lemma_kinds_of_singleton(t: Seq<char>)
    ensures
        kinds_of(seq![t]) == match kind_of_name(normalize(t)) {
            Some(k) => seq![k],
            None => Seq::<PropagatorKind>::empty(),
        },
{
    assert(seq![t][0] == t);
    assert(seq![t].drop_first() =~= Seq::<Seq<char>>::empty());
    assert(kinds_of(Seq::<Seq<char>>::empty()) =~= Seq::<PropagatorKind>::empty());
    match kind_of_name(normalize(t)) {
        Some(k) => {
            assert(kinds_of(seq![t]) =~= seq![k]);
        },
        None => {
        },
    }
}

/// The characters of a string, as a vector.
fn chars_of(s: &str) -> (r: Vec<char>)
    ensures
        r@ == s@,
{
    let n = s.unicode_len();
    let mut r: Vec<char> = Vec::new();
    let mut i: usize = 0;
    while i < n
        invariant
            i <= n,
            n == s@.len(),
            r@ == s@.take(i as int),
        decreases n - i,
    {
        r.push(s.get_char(i));
        proof {
            assert(r@ =~= s@.take(i + 1));
        }
        i += 1;
    }
    proof {
        assert(s@.take(n as int) =~= s@);
    }
    r
}

/// A vector of characters compared with a string, character for character.
fn chars_eq_str(t: &Vec<char>, s: &str) -> (r: bool)
    ensures
        r == (t@ == s@),
{
    let n = s.unicode_len();
    if t.len() != n {
        return false;
    }
    let mut i: usize = 0;
    while i < n
        invariant
            i <= n,
            n == s@.len(),
            t@.len() == n,
            forall|j: int| 0 <= j < i ==> t@[j] == s@[j],
        decreases n - i,
    {
        if t[i] != s.get_char(i) {
            return false;
        }
        i += 1;
    }
    proof {
        assert(t@ =~= s@);
    }
    true
}

/// A name normalized as the table expects it: surrounding whitespace
/// stripped, then lower-cased.
fn normalize_chars(t: &Vec<char>) -> (r: Vec<char>)
    ensures
        r@ == normalize(t@),
{
    let len = t.len();
    let mut a: usize = 0;
    proof {
        assert(t@.skip(0) =~= t@);
    }
    while a < len && (t[a] == ' ' || t[a] == '\t' || t[a] == '\n' || t[a] == '\r')
        invariant
            a <= len,
            len == t@.len(),
            trim_start_spec(t@) == trim_start_spec(t@.skip(a as int)),
        decreases len - a,
    {
        proof {
            let u = t@.skip(a as int);
            assert(u[0] == t@[a as int]);
            assert(u.drop_first() =~= t@.skip(a as int + 1));
        }
        a += 1;
    }
    proof {
        let u = t@.skip(a as int);
        if a < len {
            assert(u[0] == t@[a as int]);
            assert(!is_space(u[0]));
        }
        assert(trim_start_spec(t@) == u);
        assert(u =~= t@.subrange(a as int, len as int));
    }
    let mut b: usize = len;
    while b > a && (t[b - 1] == ' ' || t[b - 1] == '\t' || t[b - 1] == '\n' || t[b - 1] == '\r')
        invariant
            a <= b <= len,
            len == t@.len(),
            trim_start_spec(t@) == t@.subrange(a as int, len as int),
            trim_end_spec(trim_start_spec(t@)) == trim_end_spec(t@.subrange(a as int, b as int)),
        decreases b,
    {
        proof {
            let u = t@.subrange(a as int, b as int);
            assert(u.last() == t@[b - 1]);
            assert(u.drop_last() =~= t@.subrange(a as int, b as int - 1));
        }
        b -= 1;
    }
    proof {
        let u = t@.subrange(a as int, b as int);
        if b > a {
            assert(u.last() == t@[b - 1]);
            assert(!is_space(u.last()));
        }
        assert(trim_end_spec(trim_start_spec(t@)) == u);
    }
    let mut r: Vec<char> = Vec::new();
    let mut k: usize = a;
    while k < b
        invariant
            a <= k <= b <= len,
            len == t@.len(),
            r@.len() == k - a,
            forall|m: int| 0 <= m < k - a ==> r@[m] == lower_char(t@[a + m]),
        decreases b - k,
    {
        let c = t[k];
        if 'A' <= c && c <= 'Z' {
            r.push(((c as u8) + 32) as char);
        } else {
            r.push(c);
        }
        k += 1;
    }
    proof {
        assert(r@ =~= lower_seq(trim_end_spec(trim_start_spec(t@))));
    }
    r
}

/// The table lookup on an already-normalized name.
fn kind_of_normalized(t: &Vec<char>) -> (r: Option<PropagatorKind>)
    ensures
        r == kind_of_name(t@),
{
    if chars_eq_str(t, "tracecontext") {
        Some(PropagatorKind::TraceContext)
    } else if chars_eq_str(t, "baggage") {
        Some(PropagatorKind::Baggage)
    } else {
        None
    }
}

/// Resolves a comma-separated propagator-name list: each name is trimmed
/// and lower-cased, then matched against the fixed table; unrecognized
/// names are dropped with no error. The result keeps the input order.
pub fn resolve_propagators(names: &str) -> (r: Vec<PropagatorKind>)
    ensures
        r@ == resolve_spec(names@),
{
    let chars = chars_of(names);
    let n = chars.len();
    let mut result: Vec<PropagatorKind> = Vec::new();
    let mut token: Vec<char> = Vec::new();
    let ghost mut done: Seq<Seq<char>> = Seq::empty();
    let mut i: usize = 0;
    proof {
        lemma_split_names_nonempty(names@);
        assert(names@.skip(0) =~= names@);
        let rest = split_names(names@);
        assert(done + seq![token@ + rest[0]] + rest.drop_first() =~= split_names(names@));
    }
    while i < n
        invariant
            i <= n,
            n == chars@.len(),
            chars@ == names@,
            split_names(names@) == done + seq![
                token@ + split_names(names@.skip(i as int))[0],
            ] + split_names(names@.skip(i as int)).drop_first(),
            result@ == kinds_of(done),
        decreases n - i,
    {
        let c = chars[i];
        proof {
            let u = names@.skip(i as int);
            assert(u[0] == names@[i as int]);
            assert(u.drop_first() =~= names@.skip(i as int + 1));
            lemma_split_names_nonempty(names@.skip(i as int + 1));
        }
        if c == ',' {
            let norm = normalize_chars(&token);
            match kind_of_normalized(&norm) {
                Some(k) => {
                    result.push(k);
                },
                None => {},
            }
            proof {
                lemma_kinds_of_push(done, token@);
                lemma_kinds_of_singleton(token@);
                assert(result@ =~= kinds_of(done.push(token@)));
                assert(done.push(token@) =~= done + seq![token@]);
                let rest = split_names(names@.skip(i as int));
                let rest2 = split_names(names@.skip(i as int + 1));
                assert(rest == seq![Seq::<char>::empty()] + rest2);
                assert(rest[0] =~= Seq::<char>::empty());
                assert(token@ + rest[0] =~= token@);
                assert(rest.drop_first() =~= rest2);
                assert(split_names(names@) == done.push(token@) + seq![
                    Seq::<char>::empty() + rest2[0],
                ] + rest2.drop_first()) by {
                    assert(done + seq![token@ + rest[0]] + rest.drop_first() =~= done.push(token@)
                        + seq![Seq::<char>::empty() + rest2[0]] + rest2.drop_first());
                }
                done = done.push(token@);
            }
            token = Vec::new();
        } else {
            proof {
                let rest = split_names(names@.skip(i as int));
                let rest2 = split_names(names@.skip(i as int + 1));
                assert(rest == seq![seq![names@[i as int]] + rest2[0]] + rest2.drop_first());
                assert(rest[0] == seq![names@[i as int]] + rest2[0]);
                assert(rest.drop_first() =~= rest2.drop_first());
                assert(token@.push(c) =~= token@ + seq![c]);
                assert((token@ + seq![c]) + rest2[0] =~= token@ + (seq![c] + rest2[0]));
            }
            token.push(c);
        }
        i += 1;
    }
    let norm = normalize_chars(&token);
    match kind_of_normalized(&norm) {
        Some(k) => {
            result.push(k);
        },
        None => {},
    }
    proof {
        let rest = split_names(names@.skip(n as int));
        assert(names@.skip(n as int) =~= Seq::<char>::empty());
        assert(rest == seq![Seq::<char>::empty()]);
        assert(token@ + rest[0] =~= token@);
        assert(rest.drop_first() =~= Seq::<Seq<char>>::empty());
        assert(split_names(names@) =~= done.push(token@)) by {
            assert(done + seq![token@ + rest[0]] + rest.drop_first() =~= done.push(token@));
        }
        lemma_kinds_of_push(done, token@);
        lemma_kinds_of_singleton(token@);
        assert(result@ =~= kinds_of(done.push(token@)));
        assert(result@ =~= kinds_of(split_names(names@)));
    }
    result
}

/// Relies on `TextMapCompositePropagator::new` and
/// `opentelemetry::global::set_text_map_propagator`: the composite applies
/// the given propagators in list order on both inject and extract, and the
/// process-wide propagator slot is replaced with it.
#[verifier::external_body]
fn install_composite_propagator(kinds: &Vec<PropagatorKind>) {
    let list: Vec<Box<dyn TextMapPropagator + Send + Sync>> = kinds.iter().map(|k| match k {
        PropagatorKind::TraceContext => Box::new(TraceContextPropagator::new()) as Box<
            dyn TextMapPropagator + Send + Sync,
        >,
        PropagatorKind::Baggage => Box::new(BaggagePropagator::new()) as Box<
            dyn TextMapPropagator + Send + Sync,
        >,
    }).collect();
    opentelemetry::global::set_text_map_propagator(
        opentelemetry::propagation::TextMapCompositePropagator::new(list),
    );
}

/// Resolves a comma-separated list and, when at least one name is
/// recognized, composes the propagators in list order and installs the
/// composition as the process-wide default, superseding any prior global
/// propagator. When no name is recognized the call is a no-op: the prior
/// global propagator, if any, stays active. Returns the resolved set and
/// whether installation happened.
pub fn resolve_and_install_propagators(names: &str) -> (r: (Vec<PropagatorKind>, bool))
    ensures
        r.0@ == resolve_spec(names@),
        r.1 == (resolve_spec(names@).len() > 0),
{
    let kinds = resolve_propagators(names);
    if kinds.len() > 0 {
        install_composite_propagator(&kinds);
        (kinds, true)
    } else {
        (kinds, false)
    }
}

/// A list whose every name is recognized resolves to exactly those names'
/// propagators, in the list's order: nothing is dropped and nothing is
/// reordered.
pub proof fn lemma_recognized_names_keep_order(names: Seq<Seq<char>>)
    requires
        forall|i: int| 0 <= i < names.len() ==> kind_of_name(normalize(names[i])) is Some,
    ensures
        kinds_of(names).len() == names.len(),
        forall|i: int|
            0 <= i < names.len() ==> Some(kinds_of(names)[i]) == kind_of_name(normalize(names[i])),
    decreases names.len(),
{
    if names.len() == 0 {
    } else {
        assert(kind_of_name(normalize(names[0])) is Some);
        lemma_recognized_names_keep_order(names.drop_first());
        let k = kind_of_name(normalize(names[0]))->Some_0;
        assert(kinds_of(names) == seq![k] + kinds_of(names.drop_first()));
        assert forall|i: int| 0 <= i < names.len() implies Some(kinds_of(names)[i])
            == kind_of_name(normalize(names[i])) by {
            if i > 0 {
                assert(kinds_of(names)[i] == kinds_of(names.drop_first())[i - 1]);
                assert(names.drop_first()[i - 1] == names[i]);
            }
        }
    }
}

/// A list with no recognized name resolves to the empty set — and the
/// registry then leaves the prior global propagator unchanged.
pub proof fn lemma_unrecognized_names_resolve_empty(names: Seq<Seq<char>>)
    requires
        forall|i: int| 0 <= i < names.len() ==> kind_of_name(normalize(names[i])) is None,
    ensures
        kinds_of(names).len() == 0,
    decreases names.len(),
{
    if names.len() == 0 {
    } else {
        assert(kind_of_name(normalize(names[0])) is None);
        assert forall|i: int|
            0 <= i < names.drop_first().len() implies kind_of_name(
            normalize(names.drop_first()[i]),
        ) is None by {
            assert(names.drop_first()[i] == names[i + 1]);
        }
        lemma_unrecognized_names_resolve_empty(names.drop_first());
    }
}

} // verus!
