//! Compatibility modes and the engine that evaluates them.
//!
//! A mode names a policy for how a schema history `[h0 .. h(n-1)]`
//! (oldest first, `h(n-1)` the newest) is checked: against the immediate
//! predecessor only (pairwise) or against the entire earlier history
//! (transitive). The engine resolves a mode and a history into a single
//! boolean verdict by composing oracle calls.

use crate::errors::DegaussError;
use crate::oracle::{can_read_of, oracle_can_read, oracle_mutual_read};
use vstd::prelude::*;
use vstd::string::{StrSliceExecFns, StringExecFns};

verus! {

/// Possible compatibility modes between the schemas of a history.
#[derive(Clone, Copy, PartialEq, Eq, Structural, PartialOrd, Ord, Hash, Debug)]
pub enum DegaussCompatMode {
    /// The newest schema can read the data written by the most recent previous schema.
    Backward,
    /// The newest schema can read the data written by all earlier schemas.
    BackwardTransitive,
    /// The data written by the newest schema can be read by the most recent previous schema.
    Forward,
    /// The data written by the newest schema can be read by all earlier schemas.
    ForwardTransitive,
    /// The newest schema and the most recent previous schema can read each other's data.
    Full,
    /// The newest schema and all earlier schemas can read each other's data.
    FullTransitive,
}

/// How much of the history a mode is checked against: exactly the two
/// latest schemas, or the whole chain of earlier schemas.
#[derive(Clone, Copy, PartialEq, Eq, Structural, Debug)]
pub enum ChronologyClass {
    /// Compared only against the immediately preceding schema version:
    /// the history must hold exactly two schemas.
    Pairwise,
    /// Compared against every earlier schema version: the history must
    /// hold two or more schemas.
    Transitive,
}

impl DegaussCompatMode {
    /// The chronology class of this mode.
    pub open spec fn spec_chronology_class(self) -> ChronologyClass {
        match self {
            DegaussCompatMode::Backward => ChronologyClass::Pairwise,
            DegaussCompatMode::Forward => ChronologyClass::Pairwise,
            DegaussCompatMode::Full => ChronologyClass::Pairwise,
            DegaussCompatMode::BackwardTransitive => ChronologyClass::Transitive,
            DegaussCompatMode::ForwardTransitive => ChronologyClass::Transitive,
            DegaussCompatMode::FullTransitive => ChronologyClass::Transitive,
        }
    }

    /// Classify this mode as requiring exactly a two-element history or a
    /// history of two or more elements evaluated as a chain.
    pub fn chronology_class(&self) -> (r: ChronologyClass)
        ensures
            r == self.spec_chronology_class(),
    {
        match self {
            DegaussCompatMode::Backward => ChronologyClass::Pairwise,
            DegaussCompatMode::Forward => ChronologyClass::Pairwise,
            DegaussCompatMode::Full => ChronologyClass::Pairwise,
            DegaussCompatMode::BackwardTransitive => ChronologyClass::Transitive,
            DegaussCompatMode::ForwardTransitive => ChronologyClass::Transitive,
            DegaussCompatMode::FullTransitive => ChronologyClass::Transitive,
        }
    }
}

/// One character of a mode spelling brought to the canonical alphabet:
/// upper-case ASCII letters are lowered and `-` becomes `_`, so that all
/// historical spellings of a mode collapse into its canonical form.
pub open spec fn normalize_char(c: char) -> char {
    match c {
        'A' => 'a',
        'B' => 'b',
        'C' => 'c',
        'D' => 'd',
        'E' => 'e',
        'F' => 'f',
        'G' => 'g',
        'H' => 'h',
        'I' => 'i',
        'J' => 'j',
        'K' => 'k',
        'L' => 'l',
        'M' => 'm',
        'N' => 'n',
        'O' => 'o',
        'P' => 'p',
        'Q' => 'q',
        'R' => 'r',
        'S' => 's',
        'T' => 't',
        'U' => 'u',
        'V' => 'v',
        'W' => 'w',
        'X' => 'x',
        'Y' => 'y',
        'Z' => 'z',
        '-' => '_',
        _ => c,
    }
}

/// A mode spelling brought character by character to the canonical
/// alphabet.
pub open spec fn normalize_text(s: Seq<char>) -> Seq<char> {
    s.map_values(|c: char| normalize_char(c))
}

/// The canonical lowercase-with-underscore spelling of a mode: the wire
/// representation sent to the registry, stable across releases.
pub open spec fn canonical_seq(mode: DegaussCompatMode) -> Seq<char> {
    match mode {
        DegaussCompatMode::Backward => "backward"@,
        DegaussCompatMode::BackwardTransitive => "backward_transitive"@,
        DegaussCompatMode::Forward => "forward"@,
        DegaussCompatMode::ForwardTransitive => "forward_transitive"@,
        DegaussCompatMode::Full => "full"@,
        DegaussCompatMode::FullTransitive => "full_transitive"@,
    }
}

/// The mode a text names, if any: a text is recognized exactly when its
/// normalization is the canonical spelling of a mode. This accepts every
/// historical spelling — upper or mixed case, `-` or `_` between words.
pub open spec fn parse_spec(s: Seq<char>) -> Option<DegaussCompatMode> {
    if normalize_text(s) == canonical_seq(DegaussCompatMode::Backward) {
        Some(DegaussCompatMode::Backward)
    } else if normalize_text(s) == canonical_seq(DegaussCompatMode::BackwardTransitive) {
        Some(DegaussCompatMode::BackwardTransitive)
    } else if normalize_text(s) == canonical_seq(DegaussCompatMode::Forward) {
        Some(DegaussCompatMode::Forward)
    } else if normalize_text(s) == canonical_seq(DegaussCompatMode::ForwardTransitive) {
        Some(DegaussCompatMode::ForwardTransitive)
    } else if normalize_text(s) == canonical_seq(DegaussCompatMode::Full) {
        Some(DegaussCompatMode::Full)
    } else if normalize_text(s) == canonical_seq(DegaussCompatMode::FullTransitive) {
        Some(DegaussCompatMode::FullTransitive)
    } else {
        None
    }
}

/// One character brought to the canonical alphabet.
pub(crate) fn normalize_char_exec(c: char) -> (r: char)
    ensures
        r == normalize_char(c),
{
    match c {
        'A' => 'a',
        'B' => 'b',
        'C' => 'c',
        'D' => 'd',
        'E' => 'e',
        'F' => 'f',
        'G' => 'g',
        'H' => 'h',
        'I' => 'i',
        'J' => 'j',
        'K' => 'k',
        'L' => 'l',
        'M' => 'm',
        'N' => 'n',
        'O' => 'o',
        'P' => 'p',
        'Q' => 'q',
        'R' => 'r',
        'S' => 's',
        'T' => 't',
        'U' => 'u',
        'V' => 'v',
        'W' => 'w',
        'X' => 'x',
        'Y' => 'y',
        'Z' => 'z',
        '-' => '_',
        _ => c,
    }
}

/// The characters of `text`, each brought to the canonical alphabet.
pub(crate) fn normalized_chars(text: &str) -> (r: Vec<char>)
    ensures
        r@ == normalize_text(text@),
{
    let n = text.unicode_len();
    let mut norm: Vec<char> = Vec::new();
    let mut i: usize = 0;
    while i < n
        invariant
            n == text@.len(),
            0 <= i <= n,
            norm@.len() == i,
            forall|j: int| 0 <= j < i ==> norm@[j] == normalize_char(text@[j]),
        decreases n - i,
    {
        norm.push(normalize_char_exec(text.get_char(i)));
        i += 1;
    }
    proof {
        assert(norm@ =~= normalize_text(text@));
    }
    norm
}

/// Whether the collected characters are exactly the view of `t`.
pub(crate) fn chars_eq(v: &Vec<char>, t: &str) -> (r: bool)
    ensures
        r == (v@ == t@),
{
    let m = t.unicode_len();
    if v.len() != m {
        return false;
    }
    let mut i: usize = 0;
    while i < m
        invariant
            m == t@.len() == v@.len(),
            0 <= i <= m,
            forall|j: int| 0 <= j < i ==> v@[j] == t@[j],
        decreases m - i,
    {
        if v[i] != t.get_char(i) {
            return false;
        }
        i += 1;
    }
    proof {
        assert(v@ =~= t@);
    }
    true
}

impl DegaussCompatMode {
    /// Parse a mode from any of its recognized spellings,
    /// case-insensitively, with `-` and `_` interchangeable. Fails with
    /// `ParseFailure` carrying the offending text when the text matches
    /// none of them.
    pub fn parse(text: &str) -> (r: Result<DegaussCompatMode, DegaussError>)
        ensures
            match r {
                Ok(m) => parse_spec(text@) == Some(m),
                Err(e) => {
                    &&& parse_spec(text@) is None
                    &&& e matches DegaussError::ParseFailure(t) && t@ == text@
                },
            },
    {
        let norm = normalized_chars(text);
        if chars_eq(&norm, "backward") {
            Ok(DegaussCompatMode::Backward)
        } else if chars_eq(&norm, "backward_transitive") {
            Ok(DegaussCompatMode::BackwardTransitive)
        } else if chars_eq(&norm, "forward") {
            Ok(DegaussCompatMode::Forward)
        } else if chars_eq(&norm, "forward_transitive") {
            Ok(DegaussCompatMode::ForwardTransitive)
        } else if chars_eq(&norm, "full") {
            Ok(DegaussCompatMode::Full)
        } else if chars_eq(&norm, "full_transitive") {
            Ok(DegaussCompatMode::FullTransitive)
        } else {
            Err(DegaussError::ParseFailure(text.to_owned()))
        }
    }

    /// The canonical lowercase-with-underscore spelling of this mode: the
    /// stable wire representation of a subject's configured policy.
    pub fn to_canonical_string(&self) -> (r: String)
        ensures
            r@ == canonical_seq(*self),
    {
        match self {
            DegaussCompatMode::Backward => String::from_str("backward"),
            DegaussCompatMode::BackwardTransitive => String::from_str("backward_transitive"),
            DegaussCompatMode::Forward => String::from_str("forward"),
            DegaussCompatMode::ForwardTransitive => String::from_str("forward_transitive"),
            DegaussCompatMode::Full => String::from_str("full"),
            DegaussCompatMode::FullTransitive => String::from_str("full_transitive"),
        }
    }
}

/// The newest schema of `h` can read the data written under its immediate
/// predecessor.
pub open spec fn backward_verdict(h: Seq<apache_avro::Schema>) -> bool
    recommends
        h.len() >= 2,
{
    can_read_of(h[h.len() - 2], h[h.len() - 1])
}

/// The immediate predecessor can read the data written under the newest
/// schema of `h`.
pub open spec fn forward_verdict(h: Seq<apache_avro::Schema>) -> bool
    recommends
        h.len() >= 2,
{
    can_read_of(h[h.len() - 1], h[h.len() - 2])
}

/// The newest schema of `h` and its immediate predecessor can read each
/// other's data.
pub open spec fn full_verdict(h: Seq<apache_avro::Schema>) -> bool
    recommends
        h.len() >= 2,
{
    backward_verdict(h) && forward_verdict(h)
}

/// The newest schema of `h` can read the data written under every earlier
/// schema, not just the immediate predecessor.
pub open spec fn backward_transitive_verdict(h: Seq<apache_avro::Schema>) -> bool
    recommends
        h.len() >= 2,
{
    forall|i: int| 0 <= i < h.len() - 1 ==> #[trigger] can_read_of(h[i], h[h.len() - 1])
}

/// Every earlier schema of `h` can read the data written under the newest
/// schema.
pub open spec fn forward_transitive_verdict(h: Seq<apache_avro::Schema>) -> bool
    recommends
        h.len() >= 2,
{
    forall|i: int| 0 <= i < h.len() - 1 ==> #[trigger] can_read_of(h[h.len() - 1], h[i])
}

/// The newest schema of `h` and every earlier schema can read each other's
/// data.
pub open spec fn full_transitive_verdict(h: Seq<apache_avro::Schema>) -> bool
    recommends
        h.len() >= 2,
{
    backward_transitive_verdict(h) && forward_transitive_verdict(h)
}

/// The verdict a mode resolves to on a history `h` of two or more schemas.
pub open spec fn mode_verdict(mode: DegaussCompatMode, h: Seq<apache_avro::Schema>) -> bool
    recommends
        h.len() >= 2,
{
    match mode {
        DegaussCompatMode::Backward => backward_verdict(h),
        DegaussCompatMode::Forward => forward_verdict(h),
        DegaussCompatMode::Full => full_verdict(h),
        DegaussCompatMode::BackwardTransitive => backward_transitive_verdict(h),
        DegaussCompatMode::ForwardTransitive => forward_transitive_verdict(h),
        DegaussCompatMode::FullTransitive => full_transitive_verdict(h),
    }
}

/// On a two-element history `[old, new]`, `Backward` holds exactly when
/// the new schema can read data written under the old one, `Forward` when
/// the old schema can read data written under the new one, and `Full`
/// exactly when both hold.
pub proof fn lemma_pairwise_mode_verdicts(h: Seq<apache_avro::Schema>)
    requires
        h.len() == 2,
    ensures
        mode_verdict(DegaussCompatMode::Backward, h) == can_read_of(h[0], h[1]),
        mode_verdict(DegaussCompatMode::Forward, h) == can_read_of(h[1], h[0]),
        mode_verdict(DegaussCompatMode::Full, h) == (can_read_of(h[0], h[1]) && can_read_of(
            h[1],
            h[0],
        )),
{
}

/// `BackwardTransitive` holds exactly when the newest schema can read the
/// data written under every earlier schema of the history; a single
/// earlier schema it cannot read makes the whole verdict false.
pub proof fn lemma_backward_transitive_characterization(h: Seq<apache_avro::Schema>)
    requires
        h.len() >= 2,
    ensures
        mode_verdict(DegaussCompatMode::BackwardTransitive, h) <==> (forall|i: int|
            0 <= i < h.len() - 1 ==> #[trigger] can_read_of(h[i], h[h.len() - 1])),
        (exists|i: int| 0 <= i < h.len() - 1 && !(#[trigger] can_read_of(h[i], h[h.len() - 1])))
            ==> !mode_verdict(DegaussCompatMode::BackwardTransitive, h),
{
}

/// `ForwardTransitive` holds exactly when every earlier schema can read
/// the data written under the newest one — the same chain as
/// `BackwardTransitive` with the reader and writer roles swapped — and
/// `FullTransitive` holds exactly when both chains hold.
pub proof fn lemma_forward_and_full_transitive_characterization(h: Seq<apache_avro::Schema>)
    requires
        h.len() >= 2,
    ensures
        mode_verdict(DegaussCompatMode::ForwardTransitive, h) <==> (forall|i: int|
            0 <= i < h.len() - 1 ==> #[trigger] can_read_of(h[h.len() - 1], h[i])),
        (exists|i: int| 0 <= i < h.len() - 1 && !(#[trigger] can_read_of(h[h.len() - 1], h[i])))
            ==> !mode_verdict(DegaussCompatMode::ForwardTransitive, h),
        mode_verdict(DegaussCompatMode::FullTransitive, h) == (mode_verdict(
            DegaussCompatMode::BackwardTransitive,
            h,
        ) && mode_verdict(DegaussCompatMode::ForwardTransitive, h)),
{
}

/// Every canonical spelling parses back to the mode it was produced from,
/// and parsing is insensitive to the historical variations the
/// normalization folds away.
pub proof fn lemma_mode_string_round_trip(mode: DegaussCompatMode)
    ensures
        parse_spec(canonical_seq(mode)) == Some(mode),
{
    reveal_strlit("backward");
    reveal_strlit("backward_transitive");
    reveal_strlit("forward");
    reveal_strlit("forward_transitive");
    reveal_strlit("full");
    reveal_strlit("full_transitive");
    assert(normalize_text("backward"@) =~= "backward"@);
    assert(normalize_text("backward_transitive"@) =~= "backward_transitive"@);
    assert(normalize_text("forward"@) =~= "forward"@);
    assert(normalize_text("forward_transitive"@) =~= "forward_transitive"@);
    assert(normalize_text("full"@) =~= "full"@);
    assert(normalize_text("full_transitive"@) =~= "full_transitive"@);
}

/// A compatibility check for one mode.
#[derive(Clone, Debug)]
pub struct DegaussCheck(pub DegaussCompatMode);

impl DegaussCheck {
    /// Validate the given history of schemas, oldest first, against the
    /// check's mode. Pairwise modes compare the two latest schemas of the
    /// history; transitive modes compare the newest schema against every
    /// earlier one.
    pub fn validate(&self, schemas: &Vec<apache_avro::Schema>) -> (r: bool)
        requires
            schemas@.len() >= 2,
        ensures
            r == mode_verdict(self.0, schemas@),
    {
        let n = schemas.len();
        match self.0 {
            DegaussCompatMode::Backward => oracle_can_read(&schemas[n - 2], &schemas[n - 1]),
            DegaussCompatMode::Forward => oracle_can_read(&schemas[n - 1], &schemas[n - 2]),
            DegaussCompatMode::Full => oracle_mutual_read(&schemas[n - 1], &schemas[n - 2]),
            DegaussCompatMode::BackwardTransitive => {
                let mut ok = true;
                let mut i: usize = 0;
                while i < n - 1
                    invariant
                        2 <= n == schemas@.len(),
                        0 <= i <= n - 1,
                        ok == (forall|j: int|
                            0 <= j < i ==> #[trigger] can_read_of(
                                schemas@[j],
                                schemas@[n - 1],
                            )),
                    decreases n - 1 - i,
                {
                    if !oracle_can_read(&schemas[i], &schemas[n - 1]) {
                        ok = false;
                    }
                    i += 1;
                }
                ok
            },
            DegaussCompatMode::ForwardTransitive => {
                let mut ok = true;
                let mut i: usize = 0;
                while i < n - 1
                    invariant
                        2 <= n == schemas@.len(),
                        0 <= i <= n - 1,
                        ok == (forall|j: int|
                            0 <= j < i ==> #[trigger] can_read_of(
                                schemas@[n - 1],
                                schemas@[j],
                            )),
                    decreases n - 1 - i,
                {
                    if !oracle_can_read(&schemas[n - 1], &schemas[i]) {
                        ok = false;
                    }
                    i += 1;
                }
                ok
            },
            DegaussCompatMode::FullTransitive => {
                let mut ok = true;
                let mut i: usize = 0;
                while i < n - 1
                    invariant
                        2 <= n == schemas@.len(),
                        0 <= i <= n - 1,
                        ok == ((forall|j: int|
                            0 <= j < i ==> #[trigger] can_read_of(schemas@[j], schemas@[n - 1]))
                            && (forall|j: int|
                            0 <= j < i ==> #[trigger] can_read_of(
                                schemas@[n - 1],
                                schemas@[j],
                            ))),
                    decreases n - 1 - i,
                {
                    if !oracle_mutual_read(&schemas[n - 1], &schemas[i]) {
                        ok = false;
                    }
                    i += 1;
                }
                ok
            },
        }
    }
}

/// A mapping from modes to the verdict each resolved to. The canonical
/// single-mode invocation holds exactly one entry; the reporting layer
/// renders results uniformly however many modes were evaluated.
pub struct ValidationResult {
    entries: Vec<(DegaussCompatMode, bool)>,
}

impl View for ValidationResult {
    type V = Seq<(DegaussCompatMode, bool)>;

    closed spec fn view(&self) -> Seq<(DegaussCompatMode, bool)> {
        self.entries@
    }
}

impl ValidationResult {
    /// A result holding a single mode/verdict pair.
    pub fn single(mode: DegaussCompatMode, verdict: bool) -> (r: ValidationResult)
        ensures
            r@ =~= seq![(mode, verdict)],
    {
        let mut entries: Vec<(DegaussCompatMode, bool)> = Vec::new();
        entries.push((mode, verdict));
        ValidationResult { entries }
    }

    /// How many mode/verdict pairs the result holds.
    pub fn len(&self) -> (r: usize)
        ensures
            r == self@.len(),
    {
        self.entries.len()
    }

    /// The mode/verdict pair at `idx`.
    pub fn entry(&self, idx: usize) -> (r: (DegaussCompatMode, bool))
        requires
            idx < self@.len(),
        ensures
            r == self@[idx as int],
    {
        self.entries[idx]
    }

    /// The conjunction over all verdicts: true exactly when every
    /// evaluated mode passed.
    pub fn all_passed(&self) -> (r: bool)
        ensures
            r == (forall|i: int| 0 <= i < self@.len() ==> (#[trigger] self@[i]).1),
    {
        let n = self.entries.len();
        let mut ok = true;
        let mut i: usize = 0;
        while i < n
            invariant
                n == self@.len(),
                0 <= i <= n,
                ok == (forall|j: int| 0 <= j < i ==> (#[trigger] self@[j]).1),
            decreases n - i,
        {
            if !self.entries[i].1 {
                ok = false;
            }
            i += 1;
        }
        ok
    }
}

impl DegaussCheck {
    /// Validate the history and package the mode with its verdict into
    /// the mapping used uniformly by all reporting paths.
    pub fn tabular_validate(&self, schemas: &Vec<apache_avro::Schema>) -> (r: ValidationResult)
        requires
            schemas@.len() >= 2,
        ensures
            r@ =~= seq![(self.0, mode_verdict(self.0, schemas@))],
    {
        let verdict = self.validate(schemas);
        ValidationResult::single(self.0, verdict)
    }
}

} // verus!
