use vstd::prelude::*;

verus! {

use crate::text::{
    contains_seq, spec_after, spec_trim, spec_normalize, spec_dec, chars_of, append_chars,
    append_lit, contains_chars, suffix_after, trim, normalize_package, chars_eq, dec_u64,
    copy_range,
};

// ---------------------------------------------------------------------------
// Phases and line classification.
// ---------------------------------------------------------------------------

/// The installation phases, in the order they are reached.
#[derive(Clone, Copy, PartialEq, Eq, Debug, Structural)]
pub enum Phase {
    Preparing,
    Downloading,
    Downloaded,
    Compiling,
    Building,
    Finishing,
    Running,
    Complete,
}

/// Position of a phase in the transition order.
pub open spec fn rank(p: Phase) -> int {
    match p {
        Phase::Preparing => 0,
        Phase::Downloading => 1,
        Phase::Downloaded => 2,
        Phase::Compiling => 3,
        Phase::Building => 4,
        Phase::Finishing => 5,
        Phase::Running => 6,
        Phase::Complete => 7,
    }
}

/// The later of two phases in the transition order.
pub open spec fn phase_max(a: Phase, b: Phase) -> Phase {
    if rank(a) >= rank(b) {
        a
    } else {
        b
    }
}

/// The larger of two percentages.
pub open spec fn pct_max(a: int, b: int) -> int {
    if a >= b {
        a
    } else {
        b
    }
}

fn rank_of(p: Phase) -> (r: u8)
    ensures
        r as int == rank(p),
{
    match p {
        Phase::Preparing => 0,
        Phase::Downloading => 1,
        Phase::Downloaded => 2,
        Phase::Compiling => 3,
        Phase::Building => 4,
        Phase::Finishing => 5,
        Phase::Running => 6,
        Phase::Complete => 7,
    }
}

/// What a diagnostic line is about, decided by substring containment,
/// first match wins, in this fixed priority order.
#[derive(Clone, Copy, PartialEq, Eq, Debug, Structural)]
pub enum LineClass {
    Downloading,
    Downloaded,
    Compiling,
    Building,
    Finished,
    Other,
}

/// Classification of a diagnostic line against the phase markers.
pub open spec fn spec_classify(l: Seq<char>) -> LineClass {
    if contains_seq(l, "Downloading"@) {
        LineClass::Downloading
    } else if contains_seq(l, "Downloaded"@) {
        LineClass::Downloaded
    } else if contains_seq(l, "Compiling"@) {
        LineClass::Compiling
    } else if contains_seq(l, "Building"@) {
        LineClass::Building
    } else if contains_seq(l, "Finished"@) {
        LineClass::Finished
    } else {
        LineClass::Other
    }
}

/// Classifies a diagnostic line against the phase markers, first match wins.
pub fn classify_line(line: &Vec<char>) -> (c: LineClass)
    ensures
        c == spec_classify(line@),
{
    let m = chars_of("Downloading");
    if contains_chars(line, &m) {
        return LineClass::Downloading;
    }
    let m = chars_of("Downloaded");
    if contains_chars(line, &m) {
        return LineClass::Downloaded;
    }
    let m = chars_of("Compiling");
    if contains_chars(line, &m) {
        return LineClass::Compiling;
    }
    let m = chars_of("Building");
    if contains_chars(line, &m) {
        return LineClass::Building;
    }
    let m = chars_of("Finished");
    if contains_chars(line, &m) {
        return LineClass::Finished;
    }
    LineClass::Other
}

// ---------------------------------------------------------------------------
// Download kinds.
// ---------------------------------------------------------------------------

/// The cosmetic classification of a downloaded item.
#[derive(Clone, Copy, PartialEq, Eq, Debug, Structural)]
pub enum DownloadKind {
    RegistryIndex,
    RegistryCache,
    Package,
}

/// Kind of a download, decided on the text after the marker: `index` wins
/// over `registry`, anything else is a plain package.
pub open spec fn spec_kind(info: Seq<char>) -> DownloadKind {
    if contains_seq(info, "index"@) {
        DownloadKind::RegistryIndex
    } else if contains_seq(info, "registry"@) {
        DownloadKind::RegistryCache
    } else {
        DownloadKind::Package
    }
}

/// The text shown for a download kind.
pub open spec fn spec_kind_text(k: DownloadKind) -> Seq<char> {
    match k {
        DownloadKind::RegistryIndex => "registry index"@,
        DownloadKind::RegistryCache => "registry cache"@,
        DownloadKind::Package => "package"@,
    }
}

/// Classifies a download by the text after the marker.
pub fn classify_kind(info: &Vec<char>) -> (k: DownloadKind)
    ensures
        k == spec_kind(info@),
{
    let m = chars_of("index");
    if contains_chars(info, &m) {
        return DownloadKind::RegistryIndex;
    }
    let m = chars_of("registry");
    if contains_chars(info, &m) {
        return DownloadKind::RegistryCache;
    }
    DownloadKind::Package
}

/// Renders a download kind as text.
pub fn kind_text(k: DownloadKind) -> (r: Vec<char>)
    ensures
        r@ == spec_kind_text(k),
{
    match k {
        DownloadKind::RegistryIndex => chars_of("registry index"),
        DownloadKind::RegistryCache => chars_of("registry cache"),
        DownloadKind::Package => chars_of("package"),
    }
}

// ---------------------------------------------------------------------------
// Status messages.
// ---------------------------------------------------------------------------

/// Message shown when a new download is first seen.
pub open spec fn spec_msg_downloading(count: int, pkg: Seq<char>, kind: DownloadKind) -> Seq<
    char,
> {
    "downloading ["@ + spec_dec(count) + "/"@ + spec_dec(count) + "] "@ + pkg + " ("@
        + spec_kind_text(kind) + ")"@
}

/// Message shown when the first `Downloaded` line arrives.
pub open spec fn spec_msg_downloaded(count: int) -> Seq<char> {
    "downloaded "@ + spec_dec(count) + " packages successfully"@
}

/// Message shown for each `Compiling` line.
pub open spec fn spec_msg_compiling(pkg: Seq<char>) -> Seq<char> {
    "compiling "@ + pkg + " ..."@
}

/// Message shown when the binary build starts.
pub open spec fn spec_msg_building() -> Seq<char> {
    "building binary..."@
}

/// Message shown when the installer reports it finished.
pub open spec fn spec_msg_finishing() -> Seq<char> {
    "finishing installation..."@
}

/// Message shown when the installed binary is about to run.
pub open spec fn spec_msg_running() -> Seq<char> {
    "running binary..."@
}

/// Message shown when the whole run succeeded.
pub open spec fn spec_msg_complete() -> Seq<char> {
    "complete!"@
}

// ---------------------------------------------------------------------------
// The monitor session and its transition function.
// ---------------------------------------------------------------------------

/// The text between the `Downloading` marker and the end of the line,
/// with surrounding whitespace removed: the download kind is read off it.
pub open spec fn spec_download_info(l: Seq<char>) -> Seq<char> {
    spec_trim(spec_after(l, "Downloading"@))
}

/// The package identifier extracted from a `Downloading` line.
pub open spec fn spec_download_pkg(l: Seq<char>) -> Seq<char> {
    spec_normalize(spec_after(l, "Downloading"@))
}

/// The package identifier extracted from a `Compiling` line.
pub open spec fn spec_compile_pkg(l: Seq<char>) -> Seq<char> {
    spec_normalize(spec_after(l, "Compiling"@))
}

/// The mathematical state of a monitor session: the phase reached, the
/// percentage shown, and the set of download identifiers already seen,
/// in the order they were first seen.
#[verifier::ext_equal]
pub struct SessionModel {
    pub phase: Phase,
    pub percentage: int,
    pub seen: Seq<Seq<char>>,
}

impl SessionModel {
    /// Well-formedness: the percentage is a percentage and the seen
    /// identifiers are distinct.
    pub open spec fn wf(self) -> bool {
        &&& 0 <= self.percentage <= 100
        &&& forall|i: int, j: int| 0 <= i < j < self.seen.len() ==> self.seen[i] != self.seen[j]
    }
}

/// How one diagnostic line changes the session state. The phase and the
/// percentage only ever move forward; a repeated download identifier
/// changes nothing.
pub open spec fn step(m: SessionModel, l: Seq<char>) -> SessionModel {
    match spec_classify(l) {
        LineClass::Downloading => SessionModel {
            phase: phase_max(m.phase, Phase::Downloading),
            percentage: pct_max(m.percentage, 30),
            seen: if m.seen.contains(spec_download_pkg(l)) {
                m.seen
            } else {
                m.seen.push(spec_download_pkg(l))
            },
        },
        LineClass::Downloaded => {
            if rank(m.phase) < rank(Phase::Downloaded) {
                SessionModel { phase: Phase::Downloaded, percentage: pct_max(m.percentage, 45), ..m }
            } else {
                m
            }
        },
        LineClass::Compiling => SessionModel {
            phase: phase_max(m.phase, Phase::Compiling),
            percentage: pct_max(m.percentage, 60),
            ..m
        },
        LineClass::Building => {
            if rank(m.phase) < rank(Phase::Building) {
                SessionModel { phase: Phase::Building, percentage: pct_max(m.percentage, 75), ..m }
            } else {
                m
            }
        },
        LineClass::Finished => {
            if rank(m.phase) < rank(Phase::Finishing) {
                SessionModel { phase: Phase::Finishing, percentage: pct_max(m.percentage, 85), ..m }
            } else {
                m
            }
        },
        LineClass::Other => m,
    }
}

/// The status message one diagnostic line produces, if any.
pub open spec fn step_msg(m: SessionModel, l: Seq<char>) -> Option<Seq<char>> {
    match spec_classify(l) {
        LineClass::Downloading => {
            if m.seen.contains(spec_download_pkg(l)) {
                None
            } else {
                Some(
                    spec_msg_downloading(
                        m.seen.len() as int + 1,
                        spec_download_pkg(l),
                        spec_kind(spec_download_info(l)),
                    ),
                )
            }
        },
        LineClass::Downloaded => {
            if rank(m.phase) < rank(Phase::Downloaded) {
                Some(spec_msg_downloaded(m.seen.len() as int))
            } else {
                None
            }
        },
        LineClass::Compiling => Some(spec_msg_compiling(spec_compile_pkg(l))),
        LineClass::Building => {
            if rank(m.phase) < rank(Phase::Building) {
                Some(spec_msg_building())
            } else {
                None
            }
        },
        LineClass::Finished => {
            if rank(m.phase) < rank(Phase::Finishing) {
                Some(spec_msg_finishing())
            } else {
                None
            }
        },
        LineClass::Other => None,
    }
}

/// The view of an optional message.
pub open spec fn msg_view(m: Option<Vec<char>>) -> Option<Seq<char>> {
    match m {
        Some(v) => Some(v@),
        None => None,
    }
}

/// One monitor session: phase, percentage and the download identifiers
/// already seen, tracked across one installer's diagnostic stream.
pub struct MonitorSession {
    pub phase: Phase,
    pub percentage: u8,
    pub seen: Vec<Vec<char>>,
}

impl View for MonitorSession {
    type V = SessionModel;

    open spec fn view(&self) -> SessionModel {
        SessionModel {
            phase: self.phase,
            percentage: self.percentage as int,
            seen: self.seen@.map_values(|v: Vec<char>| v@),
        }
    }
}

impl MonitorSession {
    /// A fresh session: nothing matched yet, nothing downloaded.
    pub fn new() -> (s: Self)
        ensures
            s@.phase == Phase::Preparing,
            s@.percentage == 0,
            s@.seen == Seq::<Seq<char>>::empty(),
            s@.wf(),
    {
        let s = MonitorSession { phase: Phase::Preparing, percentage: 0, seen: Vec::new() };
        proof {
            assert(s@.seen =~= Seq::<Seq<char>>::empty());
        }
        s
    }

    /// Raises the percentage to `target` if it is not there yet.
    fn bump(&mut self, target: u8)
        ensures
            final(self).phase == old(self).phase,
            final(self).seen == old(self).seen,
            final(self).percentage as int == pct_max(old(self).percentage as int, target as int),
    {
        if target > self.percentage {
            self.percentage = target;
        }
    }

    /// Advances the phase to `target` unless it is already past it.
    fn advance(&mut self, target: Phase)
        ensures
            final(self).percentage == old(self).percentage,
            final(self).seen == old(self).seen,
            final(self).phase == phase_max(old(self).phase, target),
    {
        if rank_of(target) > rank_of(self.phase) {
            self.phase = target;
        }
    }

    /// Records a download identifier; reports whether it was new.
    fn insert_if_new(&mut self, pkg: &Vec<char>) -> (added: bool)
        requires
            old(self)@.wf(),
        ensures
            final(self).phase == old(self).phase,
            final(self).percentage == old(self).percentage,
            added == !old(self)@.seen.contains(pkg@),
            final(self)@.seen == if added {
                old(self)@.seen.push(pkg@)
            } else {
                old(self)@.seen
            },
            final(self)@.wf(),
    {
        let mut k: usize = 0;
        while k < self.seen.len()
            invariant
                *self == *old(self),
                old(self)@.wf(),
                k <= self.seen@.len(),
                forall|j: int| 0 <= j < k ==> self@.seen[j] != pkg@,
            decreases self.seen@.len() - k,
        {
            if chars_eq(&self.seen[k], pkg) {
                proof {
                    assert(self@.seen[k as int] == pkg@);
                }
                return false;
            }
            k += 1;
        }
        proof {
            assert(!self@.seen.contains(pkg@));
        }
        let copy = copy_range(pkg, 0, pkg.len());
        proof {
            assert(copy@ =~= pkg@);
        }
        self.seen.push(copy);
        proof {
            assert(self@.seen =~= old(self)@.seen.push(pkg@));
        }
        true
    }

    /// Classifies one diagnostic line, advances the session as `step` says,
    /// and hands back the status message `step_msg` says, if any.
    pub fn process_line(&mut self, line: &Vec<char>) -> (msg: Option<Vec<char>>)
        requires
            old(self)@.wf(),
        ensures
            final(self)@ == step(old(self)@, line@),
            msg_view(msg) == step_msg(old(self)@, line@),
            final(self)@.wf(),
            final(self)@.percentage >= old(self)@.percentage,
            rank(final(self)@.phase) >= rank(old(self)@.phase),
    {
        proof {
            lemma_step_wf(old(self)@, line@);
        }
        let class = classify_line(line);
        match class {
            LineClass::Downloading => {
                let marker = chars_of("Downloading");
                match suffix_after(line, &marker) {
                    Some(rest) => {
                        let info = trim(&rest);
                        let pkg = normalize_package(&rest);
                        self.advance(Phase::Downloading);
                        self.bump(30);
                        let added = self.insert_if_new(&pkg);
                        proof {
                            assert(self@ =~= step(old(self)@, line@));
                        }
                        if added {
                            let count = self.seen.len();
                            let d = dec_u64(count as u64);
                            let kt = kind_text(classify_kind(&info));
                            let mut m: Vec<char> = Vec::new();
                            append_lit(&mut m, "downloading [");
                            append_chars(&mut m, &d);
                            append_lit(&mut m, "/");
                            append_chars(&mut m, &d);
                            append_lit(&mut m, "] ");
                            append_chars(&mut m, &pkg);
                            append_lit(&mut m, " (");
                            append_chars(&mut m, &kt);
                            append_lit(&mut m, ")");
                            proof {
                                assert(m@ =~= spec_msg_downloading(
                                    old(self)@.seen.len() as int + 1,
                                    spec_download_pkg(line@),
                                    spec_kind(spec_download_info(line@)),
                                ));
                            }
                            Some(m)
                        } else {
                            None
                        }
                    },
                    None => {
                        proof {
                            assert(false);
                        }
                        None
                    },
                }
            },
            LineClass::Downloaded => {
                if rank_of(self.phase) < rank_of(Phase::Downloaded) {
                    let count = self.seen.len();
                    let d = dec_u64(count as u64);
                    self.advance(Phase::Downloaded);
                    self.bump(45);
                    let mut m: Vec<char> = Vec::new();
                    append_lit(&mut m, "downloaded ");
                    append_chars(&mut m, &d);
                    append_lit(&mut m, " packages successfully");
                    proof {
                        assert(self@ =~= step(old(self)@, line@));
                        assert(m@ =~= spec_msg_downloaded(old(self)@.seen.len() as int));
                    }
                    Some(m)
                } else {
                    proof {
                        assert(self@ =~= step(old(self)@, line@));
                    }
                    None
                }
            },
            LineClass::Compiling => {
                let marker = chars_of("Compiling");
                match suffix_after(line, &marker) {
                    Some(rest) => {
                        let pkg = normalize_package(&rest);
                        self.advance(Phase::Compiling);
                        self.bump(60);
                        let mut m: Vec<char> = Vec::new();
                        append_lit(&mut m, "compiling ");
                        append_chars(&mut m, &pkg);
                        append_lit(&mut m, " ...");
                        proof {
                            assert(self@ =~= step(old(self)@, line@));
                            assert(m@ =~= spec_msg_compiling(spec_compile_pkg(line@)));
                        }
                        Some(m)
                    },
                    None => {
                        proof {
                            assert(false);
                        }
                        None
                    },
                }
            },
            LineClass::Building => {
                if rank_of(self.phase) < rank_of(Phase::Building) {
                    self.advance(Phase::Building);
                    self.bump(75);
                    proof {
                        assert(self@ =~= step(old(self)@, line@));
                    }
                    Some(chars_of("building binary..."))
                } else {
                    proof {
                        assert(self@ =~= step(old(self)@, line@));
                    }
                    None
                }
            },
            LineClass::Finished => {
                if rank_of(self.phase) < rank_of(Phase::Finishing) {
                    self.advance(Phase::Finishing);
                    self.bump(85);
                    proof {
                        assert(self@ =~= step(old(self)@, line@));
                    }
                    Some(chars_of("finishing installation..."))
                } else {
                    proof {
                        assert(self@ =~= step(old(self)@, line@));
                    }
                    None
                }
            },
            LineClass::Other => {
                None
            },
        }
    }

    /// Notes one of the setup milestones passed before any line arrives.
    pub fn note_prepare(&mut self, stage: PrepStage) -> (msg: Vec<char>)
        requires
            old(self)@.wf(),
        ensures
            final(self)@.phase == old(self)@.phase,
            final(self)@.seen == old(self)@.seen,
            final(self)@.percentage == pct_max(old(self)@.percentage, prep_target(stage)),
            final(self)@.wf(),
            msg@ == spec_prep_msg(stage),
    {
        let msg = match stage {
            PrepStage::Environment => {
                self.bump(10);
                chars_of("preparing environment...")
            },
            PrepStage::Installation => {
                self.bump(15);
                chars_of("preparing installation...")
            },
            PrepStage::Starting => {
                self.bump(20);
                chars_of("starting installing...")
            },
        };
        proof {
            assert(self@.seen =~= old(self)@.seen);
            assert(self@.wf());
        }
        msg
    }

    /// Notes that the installer succeeded and the binary is about to run.
    pub fn note_running(&mut self) -> (msg: Vec<char>)
        requires
            old(self)@.wf(),
        ensures
            final(self)@.phase == phase_max(old(self)@.phase, Phase::Running),
            final(self)@.seen == old(self)@.seen,
            final(self)@.percentage == pct_max(old(self)@.percentage, 90),
            final(self)@.wf(),
            msg@ == spec_msg_running(),
    {
        self.advance(Phase::Running);
        self.bump(90);
        proof {
            assert(self@.seen =~= old(self)@.seen);
            assert(self@.wf());
        }
        chars_of("running binary...")
    }

    /// Notes that the binary ran successfully: the session is complete.
    pub fn note_complete(&mut self) -> (msg: Vec<char>)
        requires
            old(self)@.wf(),
        ensures
            final(self)@.phase == phase_max(old(self)@.phase, Phase::Complete),
            final(self)@.seen == old(self)@.seen,
            final(self)@.percentage == 100,
            final(self)@.wf(),
            msg@ == spec_msg_complete(),
    {
        self.advance(Phase::Complete);
        self.bump(100);
        proof {
            assert(self@.seen =~= old(self)@.seen);
            assert(self@.wf());
        }
        chars_of("complete!")
    }
}

/// The setup milestones before the diagnostic stream starts.
#[derive(Clone, Copy, PartialEq, Eq, Debug, Structural)]
pub enum PrepStage {
    Environment,
    Installation,
    Starting,
}

/// The percentage checkpoint of a setup milestone.
pub open spec fn prep_target(stage: PrepStage) -> int {
    match stage {
        PrepStage::Environment => 10,
        PrepStage::Installation => 15,
        PrepStage::Starting => 20,
    }
}

/// The status message of a setup milestone.
pub open spec fn spec_prep_msg(stage: PrepStage) -> Seq<char> {
    match stage {
        PrepStage::Environment => "preparing environment..."@,
        PrepStage::Installation => "preparing installation..."@,
        PrepStage::Starting => "starting installing..."@,
    }
}

// ---------------------------------------------------------------------------
// Laws of the monitor.
// ---------------------------------------------------------------------------

/// A session after a whole sequence of diagnostic lines, fed in order.
pub open spec fn run_lines(m: SessionModel, ls: Seq<Seq<char>>) -> SessionModel
    decreases ls.len(),
{
    if ls.len() == 0 {
        m
    } else {
        run_lines(step(m, ls[0]), ls.subrange(1, ls.len() as int))
    }
}

/// Law: one diagnostic line never lowers the percentage, nor the phase.
pub proof fn lemma_step_monotone(m: SessionModel, l: Seq<char>)
    ensures
        step(m, l).percentage >= m.percentage,
        rank(step(m, l).phase) >= rank(m.phase),
{
}

/// Law: one diagnostic line keeps a session well formed.
pub proof fn lemma_step_wf(m: SessionModel, l: Seq<char>)
    requires
        m.wf(),
    ensures
        step(m, l).wf(),
{
    let s = step(m, l);
    if spec_classify(l) == LineClass::Downloading {
        let pkg = spec_download_pkg(l);
        if !m.seen.contains(pkg) {
            assert forall|i: int, j: int| 0 <= i < j < s.seen.len() implies s.seen[i]
                != s.seen[j] by {
                if j < m.seen.len() {
                } else {
                    assert(s.seen[j] == pkg);
                    assert(m.seen[i] == s.seen[i]);
                }
            }
        }
    }
}

/// Law: over any sequence of diagnostic lines, the reported percentage is
/// non-decreasing, and so is the phase.
pub proof fn lemma_run_lines_monotone(m: SessionModel, ls: Seq<Seq<char>>)
    ensures
        run_lines(m, ls).percentage >= m.percentage,
        rank(run_lines(m, ls).phase) >= rank(m.phase),
    decreases ls.len(),
{
    if ls.len() > 0 {
        lemma_step_monotone(m, ls[0]);
        lemma_run_lines_monotone(step(m, ls[0]), ls.subrange(1, ls.len() as int));
    }
}

/// Law: the seen download identifiers only grow, and what was seen stays
/// where it was.
pub proof fn lemma_seen_only_grows(m: SessionModel, l: Seq<char>)
    ensures
        step(m, l).seen.len() >= m.seen.len(),
        forall|i: int| 0 <= i < m.seen.len() ==> step(m, l).seen[i] == m.seen[i],
{
}

/// Law: a whole sequence of diagnostic lines keeps a session well formed.
pub proof fn lemma_run_lines_wf(m: SessionModel, ls: Seq<Seq<char>>)
    requires
        m.wf(),
    ensures
        run_lines(m, ls).wf(),
    decreases ls.len(),
{
    if ls.len() > 0 {
        lemma_step_wf(m, ls[0]);
        lemma_run_lines_wf(step(m, ls[0]), ls.subrange(1, ls.len() as int));
    }
}

/// Law: feeding a line a second time adds no new download, and repeats a
/// message only for `Compiling` lines.
pub proof fn lemma_duplicate_line_suppressed(m: SessionModel, l: Seq<char>)
    ensures
        step(step(m, l), l).seen.len() == step(m, l).seen.len(),
        step_msg(step(m, l), l) is Some ==> spec_classify(l) == LineClass::Compiling,
{
    let s1 = step(m, l);
    if spec_classify(l) == LineClass::Downloading {
        let pkg = spec_download_pkg(l);
        if !m.seen.contains(pkg) {
            assert(s1.seen == m.seen.push(pkg));
            assert(s1.seen[m.seen.len() as int] == pkg);
            assert(s1.seen.contains(pkg));
        }
    }
}

/// Law: two `Downloading` lines with distinct new identifiers add two
/// downloads; the same identifier twice adds only one.
pub proof fn lemma_distinct_downloads_counted(m: SessionModel, l1: Seq<char>, l2: Seq<char>)
    requires
        spec_classify(l1) == LineClass::Downloading,
        spec_classify(l2) == LineClass::Downloading,
        !m.seen.contains(spec_download_pkg(l1)),
        !m.seen.contains(spec_download_pkg(l2)),
    ensures
        spec_download_pkg(l1) != spec_download_pkg(l2) ==> step(step(m, l1), l2).seen.len()
            == m.seen.len() + 2,
        spec_download_pkg(l1) == spec_download_pkg(l2) ==> step(step(m, l1), l2).seen.len()
            == m.seen.len() + 1,
{
    let pkg1 = spec_download_pkg(l1);
    let pkg2 = spec_download_pkg(l2);
    let s1 = step(m, l1);
    assert(s1.seen == m.seen.push(pkg1));
    assert(s1.seen[m.seen.len() as int] == pkg1);
    assert(s1.seen.contains(pkg1));
    if pkg1 != pkg2 {
        assert(!s1.seen.contains(pkg2)) by {
            if s1.seen.contains(pkg2) {
                let i = choose|i: int| 0 <= i < s1.seen.len() && s1.seen[i] == pkg2;
                if i < m.seen.len() {
                    assert(m.seen[i] == pkg2);
                    assert(m.seen.contains(pkg2));
                }
            }
        }
    }
}

} // verus!
