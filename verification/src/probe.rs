//! The repository probe as a step machine. A probe walks ancestor
//! directories for the marker, resolves a pointer-file redirection, reads and
//! classifies the head reference, resolves a symbolic reference, and formats
//! the short identity — but it never touches the filesystem itself. Each
//! state says which single observation its driver must make next; the driver
//! performs the read and hands the outcome back as an event. Every decision
//! between two observations is verified here, and the probe's laws (absence,
//! unbounded walk depth, determinism, rejection of malformed input) are
//! proved over the machine's transition function.

use vstd::prelude::*;
use vstd::string::*;

use crate::SHORT_ID_LEN;
use crate::decor::Color;
use crate::decor::DecoratedString;
use crate::decor::bold_wrap;
use crate::decor::color_wrap;
use crate::git::GitError;
use crate::git::HeadDescriptor;
use crate::git::HeadModel;
use crate::git::classify_head;
use crate::git::classify_head_spec;
use crate::git::format_identity;
use crate::git::format_identity_spec;
use crate::git::parse_redirect;
use crate::git::parse_redirect_spec;
use crate::git::redirect_prefix;
use crate::git::ref_display_name;
use crate::git::ref_name_spec;
use crate::git::ref_prefix;
use crate::git::resolve_ref_content;
use crate::paths::WalkNextModel;
use crate::paths::ancestor_at;
use crate::paths::height;
use crate::paths::join;
use crate::paths::join_spec;
use crate::paths::parent_spec;
use crate::paths::walk_next_spec;
use crate::paths::walk_step;
use crate::paths::WalkNext;
use crate::text::has_prefix;
use crate::text::trim_spec;

verus! {

/// The marker a repository root carries as an immediate child.
pub open spec fn marker_name() -> Seq<char> {
    ".git"@
}

/// The marker's file name, for the driver to test and read.
pub fn marker() -> (r: &'static str)
    ensures
        r@ == marker_name(),
{
    ".git"
}

/// Where one probe stands; each working state names the single observation
/// its driver must make next.
pub enum ProbeState {
    /// Test whether `dir` holds the marker as an immediate child.
    Locate { dir: String },
    /// The marker under `dir` exists: see whether it is a directory, and
    /// read it when it is a file.
    Marker { dir: String },
    /// Read the head file under the metadata directory.
    Head { git_dir: String },
    /// Read the ref file the symbolic head names, relative to the metadata
    /// directory.
    ResolveRef { git_dir: String, ref_path: String },
    /// The probe is finished with this outcome.
    Done { outcome: Result<String, GitError> },
}

/// What the driver observed when it made the requested observation.
pub enum ProbeEvent {
    /// Whether the marker exists (answers `Locate`).
    MarkerExists(bool),
    /// The marker is itself a directory (answers `Marker`).
    MarkerIsDir,
    /// The marker is a file with this content (answers `Marker`).
    MarkerFile(String),
    /// The marker is a file that could not be read (answers `Marker`).
    MarkerUnreadable,
    /// The requested file was read (answers `Head` and `ResolveRef`).
    FileContent(String),
    /// The requested file could not be read (answers `Head` and
    /// `ResolveRef`).
    FileUnreadable,
}

/// The mathematical shape of a probe state.
pub ghost enum ProbeStateModel {
    Locate { dir: Seq<char> },
    Marker { dir: Seq<char> },
    Head { git_dir: Seq<char> },
    ResolveRef { git_dir: Seq<char>, ref_path: Seq<char> },
    Done { outcome: Result<Seq<char>, GitError> },
}

/// The mathematical shape of a probe event.
pub ghost enum ProbeEventModel {
    MarkerExists(bool),
    MarkerIsDir,
    MarkerFile(Seq<char>),
    MarkerUnreadable,
    FileContent(Seq<char>),
    FileUnreadable,
}

impl View for ProbeState {
    type V = ProbeStateModel;

    open spec fn view(&self) -> ProbeStateModel {
        match self {
            ProbeState::Locate { dir } => ProbeStateModel::Locate { dir: dir@ },
            ProbeState::Marker { dir } => ProbeStateModel::Marker { dir: dir@ },
            ProbeState::Head { git_dir } => ProbeStateModel::Head { git_dir: git_dir@ },
            ProbeState::ResolveRef { git_dir, ref_path } => ProbeStateModel::ResolveRef {
                git_dir: git_dir@,
                ref_path: ref_path@,
            },
            ProbeState::Done { outcome } => ProbeStateModel::Done {
                outcome: crate::git::res_view(*outcome),
            },
        }
    }
}

impl View for ProbeEvent {
    type V = ProbeEventModel;

    open spec fn view(&self) -> ProbeEventModel {
        match self {
            ProbeEvent::MarkerExists(b) => ProbeEventModel::MarkerExists(*b),
            ProbeEvent::MarkerIsDir => ProbeEventModel::MarkerIsDir,
            ProbeEvent::MarkerFile(c) => ProbeEventModel::MarkerFile(c@),
            ProbeEvent::MarkerUnreadable => ProbeEventModel::MarkerUnreadable,
            ProbeEvent::FileContent(c) => ProbeEventModel::FileContent(c@),
            ProbeEvent::FileUnreadable => ProbeEventModel::FileUnreadable,
        }
    }
}

/// Whether `e` answers the observation `s` asks for.
pub open spec fn event_fits(s: ProbeStateModel, e: ProbeEventModel) -> bool {
    match s {
        ProbeStateModel::Locate { .. } => e is MarkerExists,
        ProbeStateModel::Marker { .. } => e is MarkerIsDir || e is MarkerFile
            || e is MarkerUnreadable,
        ProbeStateModel::Head { .. } => e is FileContent || e is FileUnreadable,
        ProbeStateModel::ResolveRef { .. } => e is FileContent || e is FileUnreadable,
        ProbeStateModel::Done { .. } => false,
    }
}

/// The probe's transition function: every short-circuit decision of the
/// facade, one observation at a time. An event that does not answer the
/// pending observation leaves the state unchanged.
pub open spec fn spec_step(s: ProbeStateModel, e: ProbeEventModel) -> ProbeStateModel {
    match (s, e) {
        (ProbeStateModel::Locate { dir }, ProbeEventModel::MarkerExists(b)) => match walk_next_spec(
            dir,
            b,
        ) {
            WalkNextModel::Found => ProbeStateModel::Marker { dir },
            WalkNextModel::Up(p) => ProbeStateModel::Locate { dir: p },
            WalkNextModel::Exhausted => ProbeStateModel::Done {
                outcome: Err(GitError::NotGitRepo),
            },
        },
        (ProbeStateModel::Marker { dir }, ProbeEventModel::MarkerIsDir) => ProbeStateModel::Head {
            git_dir: join_spec(dir, marker_name()),
        },
        (ProbeStateModel::Marker { dir }, ProbeEventModel::MarkerFile(c)) => match
            parse_redirect_spec(c) {
            Ok(target) => ProbeStateModel::Head { git_dir: join_spec(dir, target) },
            Err(e) => ProbeStateModel::Done { outcome: Err(e) },
        },
        (ProbeStateModel::Marker { .. }, ProbeEventModel::MarkerUnreadable) => ProbeStateModel::Done {
            outcome: Err(GitError::ReadGitFile),
        },
        (ProbeStateModel::Head { git_dir }, ProbeEventModel::FileContent(c)) => match
            classify_head_spec(c) {
            HeadModel::Symbolic(ref_path) => ProbeStateModel::ResolveRef { git_dir, ref_path },
            HeadModel::Detached(id) => ProbeStateModel::Done {
                outcome: format_identity_spec(None, id),
            },
        },
        (ProbeStateModel::Head { .. }, ProbeEventModel::FileUnreadable) => ProbeStateModel::Done {
            outcome: Err(GitError::ReadHead),
        },
        (ProbeStateModel::ResolveRef { git_dir, ref_path }, ProbeEventModel::FileContent(c)) => ProbeStateModel::Done {
            outcome: if trim_spec(c).len() < SHORT_ID_LEN {
                Err(GitError::IdTooShort)
            } else {
                match ref_name_spec(ref_path) {
                    Ok(n) => format_identity_spec(Some(n), trim_spec(c)),
                    Err(e) => Err(e),
                }
            },
        },
        (ProbeStateModel::ResolveRef { .. }, ProbeEventModel::FileUnreadable) => ProbeStateModel::Done {
            outcome: Err(GitError::ReadRef),
        },
        (s, _) => s,
    }
}

/// Begin a probe at a canonicalized working directory.
pub fn probe_start(canonical_cwd: String) -> (r: ProbeState)
    ensures
        r@ == (ProbeStateModel::Locate { dir: canonical_cwd@ }),
{
    ProbeState::Locate { dir: canonical_cwd }
}

/// Advance the probe by one observed event.
pub fn probe_step(state: ProbeState, event: ProbeEvent) -> (r: ProbeState)
    ensures
        r@ == spec_step(state@, event@),
{
    match (state, event) {
        (ProbeState::Locate { dir }, ProbeEvent::MarkerExists(b)) => {
            match walk_step(dir.as_str(), b) {
                WalkNext::Found => ProbeState::Marker { dir },
                WalkNext::Up(p) => ProbeState::Locate { dir: p },
                WalkNext::Exhausted => ProbeState::Done { outcome: Err(GitError::NotGitRepo) },
            }
        },
        (ProbeState::Marker { dir }, ProbeEvent::MarkerIsDir) => {
            ProbeState::Head { git_dir: join(dir.as_str(), ".git") }
        },
        (ProbeState::Marker { dir }, ProbeEvent::MarkerFile(c)) => {
            match parse_redirect(c.as_str()) {
                Ok(target) => ProbeState::Head { git_dir: join(dir.as_str(), target.as_str()) },
                Err(e) => ProbeState::Done { outcome: Err(e) },
            }
        },
        (ProbeState::Marker { .. }, ProbeEvent::MarkerUnreadable) => {
            ProbeState::Done { outcome: Err(GitError::ReadGitFile) }
        },
        (ProbeState::Head { git_dir }, ProbeEvent::FileContent(c)) => {
            match classify_head(c.as_str()) {
                HeadDescriptor::Symbolic(ref_path) => ProbeState::ResolveRef { git_dir, ref_path },
                HeadDescriptor::Detached(id) => ProbeState::Done {
                    outcome: format_identity(None, id.as_str()),
                },
            }
        },
        (ProbeState::Head { .. }, ProbeEvent::FileUnreadable) => {
            ProbeState::Done { outcome: Err(GitError::ReadHead) }
        },
        (ProbeState::ResolveRef { git_dir, ref_path }, ProbeEvent::FileContent(c)) => {
            let id = resolve_ref_content(c.as_str());
            if id.as_str().unicode_len() < SHORT_ID_LEN {
                ProbeState::Done { outcome: Err(GitError::IdTooShort) }
            } else {
                match ref_display_name(ref_path.as_str()) {
                    Ok(n) => ProbeState::Done {
                        outcome: format_identity(Some(n.as_str()), id.as_str()),
                    },
                    Err(e) => ProbeState::Done { outcome: Err(e) },
                }
            }
        },
        (ProbeState::ResolveRef { .. }, ProbeEvent::FileUnreadable) => {
            ProbeState::Done { outcome: Err(GitError::ReadRef) }
        },
        (s, _) => s,
    }
}

/// The success decoration of the probe's display text: bold, in green.
pub fn render_success(s: String) -> (r: String)
    ensures
        r@ == bold_wrap(color_wrap(s@, Color::Green)),
{
    DecoratedString::new(s).colored(Color::Green).bold().to_ansi()
}

/// Law: an event that does not answer the pending observation leaves the
/// probe exactly where it stood; in particular a finished probe never moves.
pub proof fn lemma_unanswered_event_ignored(s: ProbeStateModel, e: ProbeEventModel)
    requires
        !event_fits(s, e),
    ensures
        spec_step(s, e) == s,
{
}

/// The probe driven through a sequence of observed events.
pub open spec fn run(s: ProbeStateModel, evs: Seq<ProbeEventModel>) -> ProbeStateModel
    decreases evs.len(),
{
    if evs.len() == 0 {
        s
    } else {
        run(spec_step(s, evs[0]), evs.drop_first())
    }
}

/// Running two event stretches one after the other is running their
/// concatenation.
pub proof fn lemma_run_append(s: ProbeStateModel, evs1: Seq<ProbeEventModel>, evs2: Seq<
    ProbeEventModel,
>)
    ensures
        run(s, evs1 + evs2) == run(run(s, evs1), evs2),
    decreases evs1.len(),
{
    if evs1.len() == 0 {
        assert(evs1 + evs2 =~= evs2);
    } else {
        assert((evs1 + evs2)[0] == evs1[0]);
        assert((evs1 + evs2).drop_first() =~= evs1.drop_first() + evs2);
        lemma_run_append(spec_step(s, evs1[0]), evs1.drop_first(), evs2);
    }
}

/// Law: a probe is a pure function of the observed answers — two probes over
/// an unchanged repository observe the same events and end identically.
pub proof fn lemma_probe_deterministic(
    s1: ProbeStateModel,
    s2: ProbeStateModel,
    evs1: Seq<ProbeEventModel>,
    evs2: Seq<ProbeEventModel>,
)
    requires
        s1 == s2,
        evs1 == evs2,
    ensures
        run(s1, evs1) == run(s2, evs2),
{
}

/// Law: when no ancestor holds the marker — every existence answer on the
/// way to the top is negative — the probe ends in the absence failure,
/// whatever the starting depth.
pub proof fn lemma_probe_absence(dir: Seq<char>, evs: Seq<ProbeEventModel>)
    requires
        evs.len() == height(dir) + 1,
        forall|i: int| 0 <= i < evs.len() ==> evs[i] == ProbeEventModel::MarkerExists(false),
    ensures
        run(ProbeStateModel::Locate { dir }, evs) == (ProbeStateModel::Done {
            outcome: Err::<Seq<char>, GitError>(GitError::NotGitRepo),
        }),
    decreases height(dir),
{
    let s0 = ProbeStateModel::Locate { dir };
    assert(evs[0] == ProbeEventModel::MarkerExists(false));
    match parent_spec(dir) {
        None => {
            assert(height(dir) == 0);
            assert(evs.drop_first().len() == 0);
            assert(spec_step(s0, evs[0]) == (ProbeStateModel::Done {
                outcome: Err::<Seq<char>, GitError>(GitError::NotGitRepo),
            }));
            assert(run(s0, evs) == run(spec_step(s0, evs[0]), evs.drop_first()));
            assert(run(spec_step(s0, evs[0]), evs.drop_first()) == spec_step(s0, evs[0]));
        },
        Some(p) => {
            assert(height(dir) == 1 + height(p));
            assert(spec_step(s0, evs[0]) == (ProbeStateModel::Locate { dir: p }));
            assert(forall|i: int|
                0 <= i < evs.drop_first().len() ==> evs.drop_first()[i]
                    == ProbeEventModel::MarkerExists(false));
            lemma_probe_absence(p, evs.drop_first());
        },
    }
}

/// Law: with `k` negative answers followed by one positive, the probe stands
/// at the marker of the ancestor `k` levels up — the walk reaches any depth.
pub proof fn lemma_probe_locates_ancestor(
    dir: Seq<char>,
    k: nat,
    evs: Seq<ProbeEventModel>,
    a: Seq<char>,
)
    requires
        ancestor_at(dir, k) == Some(a),
        evs.len() == k + 1,
        forall|i: int| 0 <= i < k ==> evs[i] == ProbeEventModel::MarkerExists(false),
        evs[k as int] == ProbeEventModel::MarkerExists(true),
    ensures
        run(ProbeStateModel::Locate { dir }, evs) == (ProbeStateModel::Marker { dir: a }),
    decreases k,
{
    let s0 = ProbeStateModel::Locate { dir };
    if k == 0 {
        assert(evs.drop_first().len() == 0);
        assert(spec_step(s0, evs[0]) == (ProbeStateModel::Marker { dir }));
    } else {
        assert(evs[0] == ProbeEventModel::MarkerExists(false));
        let p = parent_spec(dir)->Some_0;
        assert(spec_step(s0, evs[0]) == (ProbeStateModel::Locate { dir: p }));
        assert(forall|i: int|
            0 <= i < k - 1 ==> evs.drop_first()[i] == ProbeEventModel::MarkerExists(false));
        assert(evs.drop_first()[k - 1] == ProbeEventModel::MarkerExists(true));
        lemma_probe_locates_ancestor(p, (k - 1) as nat, evs.drop_first(), a);
    }
}

/// Law: from a located marker that is itself a metadata directory whose head
/// file holds a long-enough detached identifier, the probe succeeds with the
/// identifier's short prefix.
pub proof fn lemma_probe_success_from_marker(a: Seq<char>, head: Seq<char>, evs: Seq<
    ProbeEventModel,
>)
    requires
        evs.len() == 2,
        evs[0] == ProbeEventModel::MarkerIsDir,
        evs[1] == ProbeEventModel::FileContent(head),
        !has_prefix(head, ref_prefix()),
        trim_spec(head).len() >= SHORT_ID_LEN,
    ensures
        run(ProbeStateModel::Marker { dir: a }, evs) == (ProbeStateModel::Done {
            outcome: Ok::<Seq<char>, GitError>(trim_spec(head).take(SHORT_ID_LEN as int)),
        }),
{
    let s0 = ProbeStateModel::Marker { dir: a };
    let s1 = spec_step(s0, evs[0]);
    assert(s1 == (ProbeStateModel::Head { git_dir: join_spec(a, marker_name()) }));
    let rest = evs.drop_first();
    assert(rest[0] == evs[1]);
    let s2 = spec_step(s1, rest[0]);
    assert(classify_head_spec(head) == HeadModel::Detached(trim_spec(head)));
    assert(s2 == (ProbeStateModel::Done {
        outcome: Ok::<Seq<char>, GitError>(trim_spec(head).take(SHORT_ID_LEN as int)),
    }));
    assert(rest.drop_first().len() == 0);
    assert(run(s0, evs) == run(s1, rest));
    assert(run(s1, rest) == run(s2, rest.drop_first()));
    assert(run(s2, rest.drop_first()) == s2);
}

/// Law: a direct metadata directory at any ancestor depth `k`, with a
/// well-formed detached head, makes the whole probe succeed — success does
/// not depend on the depth.
pub proof fn lemma_probe_success_at_depth(
    dir: Seq<char>,
    k: nat,
    a: Seq<char>,
    head: Seq<char>,
    evs: Seq<ProbeEventModel>,
)
    requires
        ancestor_at(dir, k) == Some(a),
        evs.len() == k + 3,
        forall|i: int| 0 <= i < k ==> evs[i] == ProbeEventModel::MarkerExists(false),
        evs[k as int] == ProbeEventModel::MarkerExists(true),
        evs[k + 1 as int] == ProbeEventModel::MarkerIsDir,
        evs[k + 2 as int] == ProbeEventModel::FileContent(head),
        !has_prefix(head, ref_prefix()),
        trim_spec(head).len() >= SHORT_ID_LEN,
    ensures
        run(ProbeStateModel::Locate { dir }, evs) == (ProbeStateModel::Done {
            outcome: Ok::<Seq<char>, GitError>(trim_spec(head).take(SHORT_ID_LEN as int)),
        }),
{
    let evs1 = evs.take(k + 1 as int);
    let evs2 = evs.skip(k + 1 as int);
    assert(evs =~= evs1 + evs2);
    lemma_run_append(ProbeStateModel::Locate { dir }, evs1, evs2);
    assert(evs1[k as int] == ProbeEventModel::MarkerExists(true));
    lemma_probe_locates_ancestor(dir, k, evs1, a);
    assert(evs2[0] == ProbeEventModel::MarkerIsDir);
    assert(evs2[1] == ProbeEventModel::FileContent(head));
    lemma_probe_success_from_marker(a, head, evs2);
}

/// Law (redirect round-trip): a pointer file naming an absolute path
/// resolves to exactly that path, and one naming a relative path resolves
/// relative to the marker's parent directory.
pub proof fn lemma_redirect_round_trip(target: Seq<char>, base: Seq<char>)
    requires
        target.len() > 0,
        !crate::text::is_ws(target[0]),
        !crate::text::is_ws(target.last()),
    ensures
        parse_redirect_spec(redirect_prefix() + target) == Ok::<Seq<char>, GitError>(target),
        target[0] == '/' ==> join_spec(base, target) == target,
        target[0] != '/' && (base.len() == 0 || base.last() != '/') ==> join_spec(base, target)
            == base + seq!['/'] + target,
{
    let c = redirect_prefix() + target;
    assert(c.subrange(0, redirect_prefix().len() as int) =~= redirect_prefix());
    assert(has_prefix(c, redirect_prefix()));
    assert(c.skip(redirect_prefix().len() as int) =~= target);
    assert(trim_spec(target) == target);
}

/// Law: an identifier with fewer characters than the display width is a
/// reportable failure — at a detached head and at a resolved ref alike —
/// never truncated output.
pub proof fn lemma_short_id_rejected(git_dir: Seq<char>, ref_path: Seq<char>, c: Seq<char>)
    requires
        trim_spec(c).len() < SHORT_ID_LEN,
    ensures
        !has_prefix(c, ref_prefix()) ==> spec_step(
            ProbeStateModel::Head { git_dir },
            ProbeEventModel::FileContent(c),
        ) == (ProbeStateModel::Done {
            outcome: Err::<Seq<char>, GitError>(GitError::IdTooShort),
        }),
        spec_step(
            ProbeStateModel::ResolveRef { git_dir, ref_path },
            ProbeEventModel::FileContent(c),
        ) == (ProbeStateModel::Done {
            outcome: Err::<Seq<char>, GitError>(GitError::IdTooShort),
        }),
{
}

/// Law: marker-file content without the exact redirect prefix is the
/// malformed-metadata failure, a tag of its own, distinct from every read
/// failure and from absence.
pub proof fn lemma_malformed_redirect(dir: Seq<char>, c: Seq<char>)
    requires
        !has_prefix(c, redirect_prefix()),
    ensures
        spec_step(ProbeStateModel::Marker { dir }, ProbeEventModel::MarkerFile(c)) == (
        ProbeStateModel::Done { outcome: Err::<Seq<char>, GitError>(GitError::UnexpectedGitContent) }),
        GitError::UnexpectedGitContent != GitError::ReadGitFile,
        GitError::UnexpectedGitContent != GitError::NotGitRepo,
{
}

} // verus!
