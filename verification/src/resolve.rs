//! The font-resolution policy: scan the platform's candidate list in order
//! and take the first file that can be read.
//!
//! Reading a file is an effect the caller performs. The resolver is a small
//! state machine: `resolve_start` picks the first state, the caller reads the
//! candidate the state names and hands the outcome to `resolve_advance`,
//! until the state is `Resolved` or `Failed`. Every transition is verified
//! against the spec-level transition functions, so the first-match,
//! skip-on-failure policy is proved, not just run.

use vstd::prelude::*;

use crate::error::FontError;
use crate::error::FontErrorModel;
use crate::platform::Platform;
use crate::platform::candidate_list;

verus! {

/// Where a resolution run stands.
#[derive(Debug, PartialEq, Eq)]
pub enum ResolveState {
    /// The candidate at `index` should be read next.
    Probing { index: usize },
    /// A candidate was read; its non-empty contents are the result.
    Resolved { bytes: Vec<u8> },
    /// The run is over without a font.
    Failed { error: FontError },
}

/// The mathematical shape of a `ResolveState`.
pub enum ResolveModel {
    Probing { index: int },
    Resolved { bytes: Seq<u8> },
    Failed { error: FontErrorModel },
}

impl View for ResolveState {
    type V = ResolveModel;

    open spec fn view(&self) -> ResolveModel {
        match self {
            ResolveState::Probing { index } => (ResolveModel::Probing { index: *index as int }),
            ResolveState::Resolved { bytes } => (ResolveModel::Resolved { bytes: bytes@ }),
            ResolveState::Failed { error } => (ResolveModel::Failed { error: error@ }),
        }
    }
}

/// The detail carried by `NotFound` when platform `p`'s list is exhausted.
pub open spec fn not_found_detail(p: Platform) -> Seq<char> {
    match p {
        Platform::Windows => "No Chinese font found on Windows"@,
        Platform::MacOs => "No Chinese font found on macOS"@,
        Platform::Linux => "No Chinese font found on Linux"@,
        Platform::Other => Seq::<char>::empty(),
    }
}

/// The first state of a resolution run on platform `p`: an unsupported
/// platform fails at once, without any read; a supported one probes its
/// first candidate.
pub open spec fn start_model(p: Platform) -> ResolveModel {
    if p is Other {
        ResolveModel::Failed { error: FontErrorModel::UnsupportedPlatform }
    } else {
        ResolveModel::Probing { index: 0 }
    }
}

/// The state after candidate `index` of platform `p` is skipped: probe the
/// next candidate, or fail with `NotFound` when none is left.
pub open spec fn skip_model(p: Platform, index: int) -> ResolveModel {
    if index + 1 < candidate_list(p).len() {
        ResolveModel::Probing { index: index + 1 }
    } else {
        ResolveModel::Failed { error: FontErrorModel::NotFound { detail: not_found_detail(p) } }
    }
}

/// The state after the read of candidate `index` on platform `p` came back
/// as `got`: a successful read of a non-empty file resolves immediately. A
/// failed read is skipped, and so is a read of an empty file — a successful
/// resolution always carries a non-empty buffer.
pub open spec fn advance_model(p: Platform, index: int, got: Option<Seq<u8>>) -> ResolveModel {
    match got {
        Option::Some(bytes) => {
            if bytes.len() > 0 {
                ResolveModel::Resolved { bytes }
            } else {
                skip_model(p, index)
            }
        }
        Option::None => skip_model(p, index),
    }
}

/// The spec-level shape of one read outcome.
pub open spec fn outcome_model(got: Option<Vec<u8>>) -> Option<Seq<u8>> {
    match got {
        Option::Some(bytes) => Option::Some(bytes@),
        Option::None => Option::None,
    }
}

/// How many candidate paths platform `p` has.
pub fn candidate_count(p: Platform) -> (n: usize)
    ensures
        n == candidate_list(p).len(),
{
    match p {
        Platform::Windows => 10,
        Platform::MacOs => 6,
        Platform::Linux => 10,
        Platform::Other => 0,
    }
}

/// The `NotFound` detail for platform `p` as an owned string.
fn not_found_message(p: Platform) -> (r: String)
    ensures
        r@ == not_found_detail(p),
{
    match p {
        Platform::Windows => "No Chinese font found on Windows".to_owned(),
        Platform::MacOs => "No Chinese font found on macOS".to_owned(),
        Platform::Linux => "No Chinese font found on Linux".to_owned(),
        Platform::Other => String::new(),
    }
}

/// Begin a resolution run on platform `p`.
pub fn resolve_start(p: Platform) -> (r: ResolveState)
    ensures
        r@ == start_model(p),
{
    match p {
        Platform::Other => ResolveState::Failed { error: FontError::UnsupportedPlatform },
        _ => ResolveState::Probing { index: 0 },
    }
}

/// Move past candidate `index` of platform `p`.
fn skip_candidate(p: Platform, index: usize) -> (r: ResolveState)
    requires
        !(p is Other),
        index < candidate_list(p).len(),
    ensures
        r@ == skip_model(p, index as int),
{
    let n = candidate_count(p);
    if index + 1 < n {
        ResolveState::Probing { index: index + 1 }
    } else {
        ResolveState::Failed { error: FontError::NotFound(not_found_message(p)) }
    }
}

/// Step a resolution run: the caller tried to read candidate `index` of
/// platform `p` and got `got` (`None` for any read failure). A failed read
/// and an empty file are silently skipped alike: only a non-empty file
/// resolves.
pub fn resolve_advance(p: Platform, index: usize, got: Option<Vec<u8>>) -> (r: ResolveState)
    requires
        !(p is Other),
        index < candidate_list(p).len(),
    ensures
        r@ == advance_model(p, index as int, outcome_model(got)),
{
    match got {
        Option::Some(bytes) => {
            if bytes.len() > 0 {
                ResolveState::Resolved { bytes }
            } else {
                skip_candidate(p, index)
            }
        }
        Option::None => skip_candidate(p, index),
    }
}

/// The state a run on platform `p` reaches from `s` after the read outcomes
/// in `got` are handed over one by one, while it is still probing a valid
/// candidate.
pub open spec fn run_from(p: Platform, s: ResolveModel, got: Seq<Option<Seq<u8>>>) -> ResolveModel
    decreases got.len(),
{
    if got.len() == 0 {
        s
    } else {
        match s {
            ResolveModel::Probing { index } => {
                if !(p is Other) && 0 <= index && index < candidate_list(p).len() {
                    run_from(p, advance_model(p, index, got[0]), got.skip(1))
                } else {
                    s
                }
            }
            _ => s,
        }
    }
}

/// The state a whole run on platform `p` reaches when the reads come back
/// as `got`, in candidate order.
pub open spec fn run_model(p: Platform, got: Seq<Option<Seq<u8>>>) -> ResolveModel {
    run_from(p, start_model(p), got)
}

/// Every supported platform has a non-empty candidate list — in fact at
/// least three entries — so a resolution run on it always probes.
pub proof fn lemma_supported_platform_has_candidates(p: Platform)
    requires
        !(p is Other),
    ensures
        candidate_list(p).len() >= 3,
{
    match p {
        Platform::Windows => {
            assert(candidate_list(p).len() == 10);
        }
        Platform::MacOs => {
            assert(candidate_list(p).len() == 6);
        }
        Platform::Linux => {
            assert(candidate_list(p).len() == 10);
        }
        Platform::Other => {}
    }
}

/// On an unsupported platform a run fails with `UnsupportedPlatform` before
/// any read, and the candidate list is empty.
pub proof fn lemma_unsupported_platform(p: Platform)
    requires
        p is Other,
    ensures
        start_model(p) == (ResolveModel::Failed { error: FontErrorModel::UnsupportedPlatform }),
        candidate_list(p).len() == 0,
{
}

/// First match wins: when the first two candidates cannot be read and the
/// third can (a font file, so not empty), the run returns exactly the
/// third file's bytes.
pub proof fn lemma_first_match_wins(p: Platform, bytes: Seq<u8>)
    requires
        !(p is Other),
        bytes.len() > 0,
    ensures
        run_model(p, seq![Option::None, Option::None, Option::Some(bytes)]) == (
        ResolveModel::Resolved { bytes }),
{
    lemma_supported_platform_has_candidates(p);
    let got = seq![Option::<Seq<u8>>::None, Option::None, Option::Some(bytes)];
    let s1 = got.skip(1);
    let s2 = s1.skip(1);
    let s3 = s2.skip(1);
    assert(s1.len() == 2 && s2.len() == 1 && s3.len() == 0);
    assert(s1[0] == got[1] && s2[0] == got[2]);
    assert(run_from(p, ResolveModel::Resolved { bytes }, s3) == (ResolveModel::Resolved {
        bytes,
    }));
    assert(advance_model(p, 2, s2[0]) == (ResolveModel::Resolved { bytes }));
    assert(run_from(p, ResolveModel::Probing { index: 2 }, s2) == run_from(
        p,
        ResolveModel::Resolved { bytes },
        s3,
    ));
    assert(advance_model(p, 1, s1[0]) == (ResolveModel::Probing { index: 2 }));
    assert(run_from(p, ResolveModel::Probing { index: 1 }, s1) == run_from(
        p,
        ResolveModel::Probing { index: 2 },
        s2,
    ));
    assert(advance_model(p, 0, got[0]) == (ResolveModel::Probing { index: 1 }));
    assert(run_from(p, ResolveModel::Probing { index: 0 }, got) == run_from(
        p,
        ResolveModel::Probing { index: 1 },
        s1,
    ));
}

/// A transition never invents an `UnsupportedPlatform` or a `ReadError`:
/// when it fails at all, it fails with `NotFound`.
pub proof fn lemma_advance_fails_only_not_found(p: Platform, index: int, got: Option<Seq<u8>>)
    ensures
        match advance_model(p, index, got) {
            ResolveModel::Failed { error } => error is NotFound,
            _ => true,
        },
{
}

/// A transition only succeeds with a non-empty buffer: no read outcome,
/// the empty one included, reaches `Resolved` with empty bytes.
pub proof fn lemma_resolved_nonempty(p: Platform, index: int, got: Option<Seq<u8>>)
    ensures
        match advance_model(p, index, got) {
            ResolveModel::Resolved { bytes } => bytes.len() > 0,
            _ => true,
        },
{
}

/// A whole run only succeeds with a non-empty buffer, whatever the reads
/// returned.
pub proof fn lemma_run_resolved_nonempty(p: Platform, got: Seq<Option<Seq<u8>>>)
    ensures
        match run_model(p, got) {
            ResolveModel::Resolved { bytes } => bytes.len() > 0,
            _ => true,
        },
{
    lemma_run_from_resolved_nonempty(p, start_model(p), got);
}

proof fn lemma_run_from_resolved_nonempty(p: Platform, s: ResolveModel, got: Seq<Option<Seq<u8>>>)
    requires
        match s {
            ResolveModel::Resolved { bytes } => bytes.len() > 0,
            _ => true,
        },
    ensures
        match run_from(p, s, got) {
            ResolveModel::Resolved { bytes } => bytes.len() > 0,
            _ => true,
        },
    decreases got.len(),
{
    if got.len() != 0 {
        match s {
            ResolveModel::Probing { index } => {
                if !(p is Other) && 0 <= index && index < candidate_list(p).len() {
                    lemma_resolved_nonempty(p, index, got[0]);
                    lemma_run_from_resolved_nonempty(
                        p,
                        advance_model(p, index, got[0]),
                        got.skip(1),
                    );
                }
            }
            _ => {}
        }
    }
}

/// When no candidate on a supported platform can be read, the run fails
/// with `NotFound` (and, by `lemma_advance_fails_only_not_found`, with
/// nothing else).
pub proof fn lemma_all_missing_not_found(p: Platform, got: Seq<Option<Seq<u8>>>)
    requires
        !(p is Other),
        got.len() == candidate_list(p).len(),
        forall|i: int| 0 <= i < got.len() ==> got[i] is None,
    ensures
        run_model(p, got) == (ResolveModel::Failed {
            error: FontErrorModel::NotFound { detail: not_found_detail(p) },
        }),
{
    lemma_supported_platform_has_candidates(p);
    lemma_all_missing_from(p, 0, got);
}

proof fn lemma_all_missing_from(p: Platform, index: int, got: Seq<Option<Seq<u8>>>)
    requires
        !(p is Other),
        0 <= index,
        index + got.len() == candidate_list(p).len(),
        got.len() > 0,
        forall|i: int| 0 <= i < got.len() ==> got[i] is None,
    ensures
        run_from(p, ResolveModel::Probing { index }, got) == (ResolveModel::Failed {
            error: FontErrorModel::NotFound { detail: not_found_detail(p) },
        }),
    decreases got.len(),
{
    let fail = ResolveModel::Failed {
        error: FontErrorModel::NotFound { detail: not_found_detail(p) },
    };
    if got.len() == 1 {
        assert(got[0] is None);
        assert(advance_model(p, index, got[0]) == fail);
        assert(run_from(p, fail, got.skip(1)) == fail);
    } else {
        assert(got[0] is None);
        assert(forall|i: int| 0 <= i < got.skip(1).len() ==> got.skip(1)[i] is None);
        lemma_all_missing_from(p, index + 1, got.skip(1));
        assert(advance_model(p, index, got[0]) == (ResolveModel::Probing { index: index + 1 }));
    }
}

} // verus!
