//! The wallpaper sequencer: brings a new picture onto every output without a
//! blank frame (load it, show it everywhere, only then release the old one),
//! and shows the current picture on an output that appears.

use vstd::prelude::*;
use crate::hyprpaper::{
    is_single_line, preload_command, unload_command, wallpaper_command, Hyprpaper, HyprpaperError,
};

verus! {

/// One request to the wallpaper daemon.
#[derive(Debug, Clone, PartialEq, Eq)]
pub enum DaemonCommand {
    Preload { path: String },
    Wallpaper { monitor: String, path: String },
    Unload { path: String },
}

pub enum CommandView {
    Preload(Seq<char>),
    Wallpaper(Seq<char>, Seq<char>),
    Unload(Seq<char>),
}

impl View for DaemonCommand {
    type V = CommandView;

    open spec fn view(&self) -> CommandView {
        match self {
            DaemonCommand::Preload { path } => CommandView::Preload(path@),
            DaemonCommand::Wallpaper { monitor, path } => CommandView::Wallpaper(monitor@, path@),
            DaemonCommand::Unload { path } => CommandView::Unload(path@),
        }
    }
}

pub open spec fn commands_view(v: Seq<DaemonCommand>) -> Seq<CommandView> {
    v.map_values(|c: DaemonCommand| c@)
}

pub open spec fn strings_view(v: Seq<String>) -> Seq<Seq<char>> {
    v.map_values(|s: String| s@)
}

/// The requests of a change to the picture `new` on the outputs `monitors`:
/// load it, show it on each output in turn, then release `previous`, if any.
pub open spec fn transition_script(
    new: Seq<char>,
    monitors: Seq<Seq<char>>,
    previous: Option<Seq<char>>,
) -> Seq<CommandView> {
    seq![CommandView::Preload(new)] + monitors.map_values(
        |m: Seq<char>| CommandView::Wallpaper(m, new),
    ) + match previous {
        Some(p) => seq![CommandView::Unload(p)],
        None => Seq::<CommandView>::empty(),
    }
}

pub struct SequencerView {
    pub applied: Seq<char>,
    pub resident: bool,
    pub target: Seq<char>,
    pub pending: Seq<CommandView>,
    pub done: nat,
    pub apply_end: nat,
}

/// Keeps what every output shows in step with the last applied picture.
#[derive(Debug, Clone)]
pub struct WallpaperSequencer {
    applied: String,
    resident: bool,
    target: String,
    pending: Vec<DaemonCommand>,
    done: usize,
    apply_end: usize,
}

impl View for WallpaperSequencer {
    type V = SequencerView;

    closed spec fn view(&self) -> SequencerView {
        SequencerView {
            applied: self.applied@,
            resident: self.resident,
            target: self.target@,
            pending: commands_view(self.pending@),
            done: self.done as nat,
            apply_end: self.apply_end as nat,
        }
    }
}

pub open spec fn is_idle(v: SequencerView) -> bool {
    v.pending.len() == 0 && v.done == 0
}

/// The state after the request at `done` finished, successfully or not. A
/// load that fails abandons the change; every later request is made whatever
/// became of the one before. Once the last output was served the new picture
/// counts as applied; after the last request the sequencer is idle again.
pub open spec fn after_command(v: SequencerView, succeeded: bool) -> SequencerView {
    if v.done == 0 && !succeeded {
        SequencerView { pending: Seq::empty(), done: 0, ..v }
    } else {
        let done = v.done + 1;
        let v1 = if done == v.apply_end {
            SequencerView { applied: v.target, resident: true, done: done as nat, ..v }
        } else {
            SequencerView { done: done as nat, ..v }
        };
        if done == v.pending.len() {
            SequencerView { pending: Seq::empty(), done: 0, ..v1 }
        } else {
            v1
        }
    }
}

/// The requests made when the requests of `v` finish with the outcomes `outcomes`.
pub open spec fn issued(v: SequencerView, outcomes: Seq<bool>) -> Seq<CommandView>
    decreases outcomes.len(),
{
    if outcomes.len() == 0 || v.done >= v.pending.len() {
        Seq::empty()
    } else {
        seq![v.pending[v.done as int]] + issued(after_command(v, outcomes[0]), outcomes.drop_first())
    }
}

impl WallpaperSequencer {
    pub closed spec fn wf(&self) -> bool {
        &&& self.done <= self.pending@.len()
        &&& (self.pending@.len() == 0 ==> self.done == 0)
        &&& (self.pending@.len() > 0 ==> self.done < self.pending@.len())
    }

    /// The sequencer before any picture was applied; `fallback` is what a new
    /// output shows until then.
    pub fn new(fallback: String) -> (r: WallpaperSequencer)
        ensures
            r.wf(),
            r@.applied == fallback@,
            !r@.resident,
            is_idle(r@),
    {
        WallpaperSequencer {
            applied: fallback,
            resident: false,
            target: String::new(),
            pending: Vec::new(),
            done: 0,
            apply_end: 0,
        }
    }

    /// The picture that outputs show, or are to show.
    pub fn applied_picture(&self) -> (r: &String)
        ensures
            r@ == self@.applied,
    {
        &self.applied
    }

    /// Whether no change is in progress.
    pub fn is_idle(&self) -> (r: bool)
        requires
            self.wf(),
        ensures
            r == is_idle(self@),
    {
        self.pending.len() == 0
    }

    /// Begins the change to the picture `path` on the outputs `monitors`. A
    /// picture that is already loaded and applied needs no request; otherwise
    /// the change loads it, shows it on each output, then releases the picture
    /// that was loaded before.
    pub fn set_new_wallpaper(&mut self, path: String, monitors: Vec<String>)
        requires
            old(self).wf(),
            is_idle(old(self)@),
            monitors@.len() + 2 <= usize::MAX,
        ensures
            final(self).wf(),
            old(self)@.resident && old(self)@.applied == path@ ==> final(self)@ == old(self)@,
            !(old(self)@.resident && old(self)@.applied == path@) ==> final(self)@ == (SequencerView {
                target: path@,
                pending: transition_script(
                    path@,
                    strings_view(monitors@),
                    if old(self)@.resident { Some(old(self)@.applied) } else { None },
                ),
                done: 0,
                apply_end: (monitors@.len() + 1) as nat,
                ..old(self)@
            }),
    {
        if self.resident && self.applied == path {
            return;
        }
        let ghost previous = if self@.resident { Some(self@.applied) } else { None::<Seq<char>> };
        let mut script: Vec<DaemonCommand> = Vec::new();
        script.push(DaemonCommand::Preload { path: path.clone() });
        let mut i: usize = 0;
        while i < monitors.len()
            invariant
                i <= monitors@.len(),
                script@.len() == i + 1,
                commands_view(script@) =~= seq![CommandView::Preload(path@)] + strings_view(
                    monitors@,
                ).take(i as int).map_values(|m: Seq<char>| CommandView::Wallpaper(m, path@)),
            decreases monitors.len() - i,
        {
            let ghost before = script@;
            let ghost ms = strings_view(monitors@);
            let monitor = monitors[i].clone();
            script.push(DaemonCommand::Wallpaper { monitor, path: path.clone() });
            assert(commands_view(script@) =~= commands_view(before).push(
                CommandView::Wallpaper(monitors@[i as int]@, path@),
            ));
            assert(ms.take(i + 1) =~= ms.take(i as int).push(monitors@[i as int]@));
            assert(ms.take(i + 1).map_values(|m: Seq<char>| CommandView::Wallpaper(m, path@))
                =~= ms.take(i as int).map_values(|m: Seq<char>| CommandView::Wallpaper(m, path@)).push(
                CommandView::Wallpaper(monitors@[i as int]@, path@),
            ));
            i = i + 1;
            assert(commands_view(script@) =~= seq![CommandView::Preload(path@)] + strings_view(
                monitors@,
            ).take(i as int).map_values(|m: Seq<char>| CommandView::Wallpaper(m, path@)));
        }
        assert(strings_view(monitors@).take(i as int) =~= strings_view(monitors@));
        if self.resident {
            script.push(DaemonCommand::Unload { path: self.applied.clone() });
        }
        assert(commands_view(script@) =~= transition_script(
            path@,
            strings_view(monitors@),
            previous,
        ));
        self.target = path;
        self.pending = script;
        self.done = 0;
        self.apply_end = monitors.len() + 1;
    }

    /// The next request of the change in progress, if any.
    pub fn next_command(&self) -> (r: Option<DaemonCommand>)
        requires
            self.wf(),
        ensures
            self@.done < self@.pending.len() ==> (r matches Some(c) && c@
                == self@.pending[self@.done as int]),
            self@.done >= self@.pending.len() ==> r is None,
    {
        if self.done < self.pending.len() {
            let c = match &self.pending[self.done] {
                DaemonCommand::Preload { path } => DaemonCommand::Preload { path: path.clone() },
                DaemonCommand::Wallpaper { monitor, path } => DaemonCommand::Wallpaper {
                    monitor: monitor.clone(),
                    path: path.clone(),
                },
                DaemonCommand::Unload { path } => DaemonCommand::Unload { path: path.clone() },
            };
            Some(c)
        } else {
            None
        }
    }

    /// Records that the request named by `next_command` finished.
    pub fn command_done(&mut self, succeeded: bool)
        requires
            old(self).wf(),
            old(self)@.done < old(self)@.pending.len(),
        ensures
            final(self).wf(),
            final(self)@ == after_command(old(self)@, succeeded),
    {
        if self.done == 0 && !succeeded {
            self.pending = Vec::new();
            self.done = 0;
            assert(commands_view(self.pending@) =~= Seq::<CommandView>::empty());
            return;
        }
        let n = self.pending.len();
        self.done = self.done + 1;
        if self.done == self.apply_end {
            self.applied = self.target.clone();
            self.resident = true;
        }
        if self.done == n {
            self.pending = Vec::new();
            self.done = 0;
            assert(commands_view(self.pending@) =~= Seq::<CommandView>::empty());
        }
    }

    /// The single request that shows the applied picture on the new output
    /// `monitor`; nothing is loaded or released.
    pub fn on_monitor_added(&self, monitor: String) -> (r: DaemonCommand)
        ensures
            r@ == CommandView::Wallpaper(monitor@, self@.applied),
    {
        DaemonCommand::Wallpaper { monitor, path: self.applied.clone() }
    }
}

proof fn lemma_issued_rest(v: SequencerView, outcomes: Seq<bool>)
    requires
        v.done < v.pending.len(),
        outcomes.len() == v.pending.len() - v.done,
        v.done == 0 ==> outcomes[0],
    ensures
        issued(v, outcomes) == v.pending.subrange(v.done as int, v.pending.len() as int),
    decreases outcomes.len(),
{
    let next = after_command(v, outcomes[0]);
    let rest = outcomes.drop_first();
    if v.done + 1 < v.pending.len() {
        lemma_issued_rest(next, rest);
        assert(seq![v.pending[v.done as int]] + v.pending.subrange((v.done + 1) as int, v.pending.len() as int)
            =~= v.pending.subrange(v.done as int, v.pending.len() as int));
    } else {
        assert(rest.len() == 0);
        assert(issued(next, rest) == Seq::<CommandView>::empty());
        assert(seq![v.pending[v.done as int]] =~= v.pending.subrange(
            v.done as int,
            v.pending.len() as int,
        ));
    }
}

/// A picture change whose load succeeds makes exactly the requests of its
/// script, in order, whatever becomes of the later ones: first the load of the
/// new picture, then its showing on every output in the outputs' order, and
/// the release of the previous picture last, after every showing.
pub proof fn lemma_picture_change_order(
    v: SequencerView,
    new: Seq<char>,
    monitors: Seq<Seq<char>>,
    previous: Option<Seq<char>>,
    outcomes: Seq<bool>,
)
    requires
        v.pending == transition_script(new, monitors, previous),
        v.done == 0,
        outcomes.len() == v.pending.len(),
        outcomes[0],
    ensures
        issued(v, outcomes) == transition_script(new, monitors, previous),
        issued(v, outcomes)[0] == CommandView::Preload(new),
        forall|i: int|
            0 <= i < monitors.len() ==> #[trigger] issued(v, outcomes)[i + 1]
                == CommandView::Wallpaper(monitors[i], new),
        previous is None ==> issued(v, outcomes).len() == monitors.len() + 1,
        previous matches Some(p) ==> issued(v, outcomes).len() == monitors.len() + 2
            && issued(v, outcomes)[(monitors.len() + 1) as int] == CommandView::Unload(p),
{
    lemma_issued_rest(v, outcomes);
    assert(v.pending.subrange(0, v.pending.len() as int) =~= v.pending);
}

/// A change whose load fails makes no other request: no output is touched and
/// nothing is released.
pub proof fn lemma_failed_load_stops(v: SequencerView, outcomes: Seq<bool>)
    requires
        v.done == 0,
        v.pending.len() > 0,
        outcomes.len() > 0,
        !outcomes[0],
    ensures
        issued(v, outcomes) == seq![v.pending[0]],
        after_command(v, false).applied == v.applied,
        is_idle(after_command(v, false)),
{
    let next = after_command(v, false);
    assert(issued(next, outcomes.drop_first()) == Seq::<CommandView>::empty());
    assert(issued(v, outcomes) =~= seq![v.pending[0]]);
}

/// The state once the requests of `v` finished with the outcomes `outcomes`.
pub open spec fn after_all(v: SequencerView, outcomes: Seq<bool>) -> SequencerView
    decreases outcomes.len(),
{
    if outcomes.len() == 0 || v.done >= v.pending.len() {
        v
    } else {
        after_all(after_command(v, outcomes[0]), outcomes.drop_first())
    }
}

proof fn lemma_after_all_applies(v: SequencerView, outcomes: Seq<bool>)
    requires
        v.done < v.pending.len(),
        1 <= v.apply_end <= v.pending.len(),
        v.done >= v.apply_end ==> v.applied == v.target && v.resident,
        outcomes.len() == v.pending.len() - v.done,
        v.done == 0 ==> outcomes[0],
    ensures
        after_all(v, outcomes).applied == v.target,
        after_all(v, outcomes).resident,
        is_idle(after_all(v, outcomes)),
    decreases outcomes.len(),
{
    let next = after_command(v, outcomes[0]);
    let rest = outcomes.drop_first();
    assert(after_all(v, outcomes) == after_all(next, rest));
    if v.done + 1 < v.pending.len() {
        lemma_after_all_applies(next, rest);
    } else {
        assert(rest.len() == 0);
        assert(after_all(next, rest) == next);
        assert(next.applied == v.target && next.resident);
    }
}

/// Beginning a change from an idle sequencer whose picture `v.applied` is
/// loaded, to another picture `new` on the outputs `monitors`: when the load
/// succeeds, the daemon receives exactly the load of `new`, its showing on
/// each output in order, and last the release of the old picture; afterwards
/// `new` is the applied picture and no change is in progress.
pub proof fn lemma_change_from_loaded_picture(
    v: SequencerView,
    new: Seq<char>,
    monitors: Seq<Seq<char>>,
    outcomes: Seq<bool>,
)
    requires
        is_idle(v),
        v.resident,
        v.applied != new,
        outcomes.len() == monitors.len() + 2,
        outcomes[0],
    ensures
        ({
            let w = SequencerView {
                target: new,
                pending: transition_script(new, monitors, Some(v.applied)),
                done: 0,
                apply_end: (monitors.len() + 1) as nat,
                ..v
            };
            &&& issued(w, outcomes) == transition_script(new, monitors, Some(v.applied))
            &&& issued(w, outcomes).len() == monitors.len() + 2
            &&& issued(w, outcomes)[0] == CommandView::Preload(new)
            &&& forall|i: int|
                0 <= i < monitors.len() ==> #[trigger] issued(w, outcomes)[i + 1]
                    == CommandView::Wallpaper(monitors[i], new)
            &&& issued(w, outcomes)[(monitors.len() + 1) as int] == CommandView::Unload(v.applied)
            &&& after_all(w, outcomes).applied == new
            &&& after_all(w, outcomes).resident
            &&& is_idle(after_all(w, outcomes))
        }),
{
    let w = SequencerView {
        target: new,
        pending: transition_script(new, monitors, Some(v.applied)),
        done: 0,
        apply_end: (monitors.len() + 1) as nat,
        ..v
    };
    lemma_picture_change_order(w, new, monitors, Some(v.applied), outcomes);
    lemma_after_all_applies(w, outcomes);
}

/// The text a request is sent as, or why it cannot be sent.
pub open spec fn message_of(c: CommandView) -> Result<Seq<char>, HyprpaperError> {
    match c {
        CommandView::Preload(p) => if is_single_line(p) {
            Ok(preload_command(p))
        } else {
            Err(HyprpaperError::InvalidPath)
        },
        CommandView::Wallpaper(m, p) => if !is_single_line(m) {
            Err(HyprpaperError::InvalidMonitor)
        } else if !is_single_line(p) {
            Err(HyprpaperError::InvalidPath)
        } else {
            Ok(wallpaper_command(m, p))
        },
        CommandView::Unload(p) => if is_single_line(p) {
            Ok(unload_command(p))
        } else {
            Err(HyprpaperError::InvalidPath)
        },
    }
}

impl DaemonCommand {
    /// The text of this request in the daemon's protocol.
    pub fn message(&self, daemon: &Hyprpaper) -> (r: Result<String, HyprpaperError>)
        ensures
            match r {
                Ok(m) => message_of(self@) == Ok::<Seq<char>, HyprpaperError>(m@),
                Err(e) => message_of(self@) == Err::<Seq<char>, HyprpaperError>(e),
            },
    {
        match self {
            DaemonCommand::Preload { path } => daemon.preload(path.as_str()),
            DaemonCommand::Wallpaper { monitor, path } => daemon.set_wallpaper(
                monitor.as_str(),
                path.as_str(),
            ),
            DaemonCommand::Unload { path } => daemon.unload(path.as_str()),
        }
    }
}

} // verus!
