//! Which commands of a session are running, and that the end of each is told once.

use crate::exec_events::{EventMsg, ExecDuration, OrderMeta, OrderedEvent};
use crate::omap::{entry_map, entry_map_domain, entry_map_value, has_key, keys_increase, OrderedMap};
use crate::text::{lex_lt_irreflexive, str_eq};
use vstd::prelude::*;

verus! {

broadcast use vstd::seq_lib::group_seq_properties;

/// How a command ends that does not end by itself, and what is said of it.
pub open spec fn synthetic_end(cancelled: bool) -> (i32, Seq<char>) {
    (
        130,
        if cancelled {
            "Command cancelled by user."@
        } else {
            "Command interrupted before completion."@
        },
    )
}

/// How a command ends that does not end by itself, and what is said of it.
pub fn synthetic_exec_end_payload(cancelled: bool) -> (r: (i32, String))
    ensures
        (r.0, r.1@) == synthetic_end(cancelled),
{
    if cancelled {
        (130, "Command cancelled by user.".to_string())
    } else {
        (130, "Command interrupted before completion.".to_string())
    }
}

/// What is known of a command, to whoever runs it and to the session.
#[derive(Debug, PartialEq, Eq, Clone, Copy, Structural)]
pub struct ExecFlags {
    /// The user cancelled it.
    pub cancelled: bool,
    /// Its end was told.
    pub end_emitted: bool,
}

/// What is known of every command that was ever run, by number.
#[derive(Debug, PartialEq, Eq)]
pub struct FlagTable {
    pub flags: Vec<ExecFlags>,
}

impl FlagTable {
    /// What is known of every command.
    pub open spec fn view(&self) -> Seq<ExecFlags> {
        self.flags@
    }

    /// No command was run yet.
    pub fn new() -> (t: FlagTable)
        ensures
            t.view().len() == 0,
    {
        FlagTable { flags: Vec::new() }
    }

    /// Gives a new command a number: neither was it cancelled, nor was its end told.
    pub fn register(&mut self) -> (n: usize)
        ensures
            n == old(self).view().len(),
            final(self).view() == old(self).view().push(
                ExecFlags { cancelled: false, end_emitted: false },
            ),
    {
        let n = self.flags.len();
        self.flags.push(ExecFlags { cancelled: false, end_emitted: false });
        n
    }

    fn set(&mut self, n: usize, f: ExecFlags)
        requires
            n < old(self).view().len(),
        ensures
            final(self).view() == old(self).view().update(n as int, f),
    {
        self.flags.set(n, f);
    }
}

/// A command that is running.
#[derive(Debug, PartialEq, Eq)]
pub struct RunningExecMeta {
    pub sub_id: String,
    pub order_meta: OrderMeta,
    /// Its number.
    pub flags: usize,
}

impl Clone for RunningExecMeta {
    fn clone(&self) -> (r: Self)
        ensures
            r == *self,
    {
        RunningExecMeta {
            sub_id: self.sub_id.clone(),
            order_meta: self.order_meta,
            flags: self.flags,
        }
    }
}

/// The commands of a session that are running, by their call ids.
#[derive(Debug, PartialEq)]
pub struct Session {
    pub running_execs: OrderedMap<RunningExecMeta>,
}

/// The running commands have numbers of their own.
pub open spec fn numbers_fit(execs: Map<Seq<char>, RunningExecMeta>, count: nat) -> bool {
    &&& forall|k: Seq<char>| #[trigger] execs.contains_key(k) ==> execs[k].flags < count
    &&& forall|k: Seq<char>, l: Seq<char>|
        #[trigger] execs.contains_key(k) && #[trigger] execs.contains_key(l) && execs[k].flags
            == execs[l].flags ==> k == l
}

/// The running command belongs to the submission; to any, where none is named.
pub open spec fn belongs(m: RunningExecMeta, sub_id: Option<Seq<char>>) -> bool {
    sub_id matches Some(s) ==> m.sub_id@ == s
}

/// The number is that of a running command of the submission.
pub open spec fn is_running(
    execs: Map<Seq<char>, RunningExecMeta>,
    n: int,
    sub_id: Option<Seq<char>>,
) -> bool {
    exists|k: Seq<char>|
        #[trigger] execs.contains_key(k) && execs[k].flags == n && belongs(execs[k], sub_id)
}

/// What is known once the running commands of the submission are cancelled.
pub open spec fn cancelled_flags(
    flags: Seq<ExecFlags>,
    execs: Map<Seq<char>, RunningExecMeta>,
    sub_id: Option<Seq<char>>,
) -> Seq<ExecFlags> {
    Seq::new(
        flags.len(),
        |i: int|
            ExecFlags {
                cancelled: flags[i].cancelled || is_running(execs, i, sub_id),
                end_emitted: flags[i].end_emitted,
            },
    )
}

/// The command belongs to the submission, and its end was not told.
pub open spec fn is_open(m: RunningExecMeta, flags: Seq<ExecFlags>, sub_id: Seq<char>) -> bool {
    m.sub_id@ == sub_id && !flags[m.flags as int].end_emitted
}

/// The running commands without those whose end is now told.
pub open spec fn still_running(
    execs: Map<Seq<char>, RunningExecMeta>,
    flags: Seq<ExecFlags>,
    sub_id: Seq<char>,
) -> Map<Seq<char>, RunningExecMeta> {
    Map::new(
        |k: Seq<char>| execs.contains_key(k) && !is_open(execs[k], flags, sub_id),
        |k: Seq<char>| execs[k],
    )
}

/// The number is that of a command whose end is now told.
pub open spec fn is_finalized(
    execs: Map<Seq<char>, RunningExecMeta>,
    flags: Seq<ExecFlags>,
    sub_id: Seq<char>,
    n: int,
) -> bool {
    exists|k: Seq<char>|
        #[trigger] execs.contains_key(k) && execs[k].flags == n && is_open(execs[k], flags, sub_id)
}

/// What is known once the end of those commands is told.
pub open spec fn finalized_flags(
    flags: Seq<ExecFlags>,
    execs: Map<Seq<char>, RunningExecMeta>,
    sub_id: Seq<char>,
) -> Seq<ExecFlags> {
    Seq::new(
        flags.len(),
        |i: int|
            if is_finalized(execs, flags, sub_id, i) {
                ExecFlags { cancelled: true, end_emitted: true }
            } else {
                flags[i]
            },
    )
}

/// The event tells the end of a command that does not end by itself.
pub open spec fn is_synthetic_end(
    e: OrderedEvent,
    sub_id: Seq<char>,
    call_id: Seq<char>,
    order_meta: OrderMeta,
    cancelled: bool,
) -> bool {
    &&& e.sub_id@ == sub_id
    &&& e.order == Some(order_meta)
    &&& e.seq_hint == order_meta.sequence_number
    &&& match e.msg {
        EventMsg::ExecCommandEnd { call_id: id, stdout, stderr, exit_code, duration } => id@
            == call_id && stdout@.len() == 0 && (exit_code, stderr@) == synthetic_end(cancelled)
            && duration == (ExecDuration { secs: 0, nanos: 0 }),
        _ => false,
    }
}

fn synthetic_end_event(sub_id: &str, call_id: &str, order_meta: OrderMeta, cancelled: bool) -> (e:
    OrderedEvent)
    ensures
        is_synthetic_end(e, sub_id@, call_id@, order_meta, cancelled),
{
    let (exit_code, stderr) = synthetic_exec_end_payload(cancelled);
    OrderedEvent {
        sub_id: sub_id.to_string(),
        msg: EventMsg::ExecCommandEnd {
            call_id: call_id.to_string(),
            stdout: String::new(),
            stderr,
            exit_code,
            duration: ExecDuration { secs: 0, nanos: 0 },
        },
        order: Some(order_meta),
        seq_hint: order_meta.sequence_number,
    }
}

/// The commands of the submission whose end was not told, in the order of their
/// call ids.
pub open spec fn open_execs(
    entries: Seq<(String, RunningExecMeta)>,
    flags: Seq<ExecFlags>,
    sub_id: Seq<char>,
) -> Seq<(String, RunningExecMeta)> {
    entries.filter(|e: (String, RunningExecMeta)| is_open(e.1, flags, sub_id))
}

/// Each event tells that the command at its place was cancelled.
pub open spec fn tell_cancelled(
    events: Seq<OrderedEvent>,
    execs: Seq<(String, RunningExecMeta)>,
    sub_id: Seq<char>,
) -> bool {
    events.len() == execs.len() && forall|i: int|
        0 <= i < events.len() ==> is_synthetic_end(
            #[trigger] events[i],
            sub_id,
            execs[i].0@,
            execs[i].1.order_meta,
            true,
        )
}

impl Session {
    /// The running commands, by their call ids.
    pub open spec fn view(&self) -> Map<Seq<char>, RunningExecMeta> {
        self.running_execs@
    }

    /// No command is running.
    pub fn new() -> (s: Session)
        ensures
            s.view() == Map::<Seq<char>, RunningExecMeta>::empty(),
    {
        Session { running_execs: OrderedMap::new() }
    }

    /// Lists a command as running, in place of another one with its call id.
    pub fn track_running_exec(
        &mut self,
        call_id: &str,
        sub_id: &str,
        order_meta: OrderMeta,
        flags: usize,
    )
        ensures
            final(self).view().dom() == old(self).view().dom().insert(call_id@),
            forall|k: Seq<char>|
                k != call_id@ && old(self).view().contains_key(k) ==> (
                #[trigger] final(self).view()[k]) == old(self).view()[k],
            ({
                let m = final(self).view()[call_id@];
                m.sub_id@ == sub_id@ && m.order_meta == order_meta && m.flags == flags
            }),
    {
        let meta = RunningExecMeta { sub_id: sub_id.to_string(), order_meta, flags };
        self.running_execs.insert(call_id.to_string(), meta);
    }

    /// Lists a command as running no longer.
    pub fn unregister_running_exec(&mut self, call_id: &str)
        ensures
            final(self).view() == old(self).view().remove(call_id@),
    {
        let _ = self.running_execs.remove(call_id);
    }

    fn cancel(&self, table: &mut FlagTable, sub_id: Option<&str>)
        requires
            numbers_fit(self.view(), old(table).view().len()),
        ensures
            final(table).view() == cancelled_flags(
                old(table).view(),
                self.view(),
                match sub_id {
                    Some(s) => Some(s@),
                    None => None,
                },
            ),
    {
        let ghost before = table.view();
        let ghost sub = match sub_id {
            Some(s) => Some(s@),
            None => None,
        };
        let entries = self.running_execs.entries();
        let ghost id = |v: RunningExecMeta| v;
        let mut i: usize = 0;
        assert(table.view() =~= cancelled_flags(before, entry_map(entries@.take(0), id), sub));
        while i < entries.len()
            invariant
                i <= entries@.len(),
                entries@ == self.running_execs.spec_entries(),
                keys_increase(entries@),
                id == (|v: RunningExecMeta| v),
                sub == (match sub_id {
                    Some(s) => Some(s@),
                    None => None,
                }),
                numbers_fit(self.view(), before.len()),
                table.view() == cancelled_flags(
                    before,
                    entry_map(entries@.take(i as int), id),
                    sub,
                ),
            decreases entries@.len() - i,
        {
            let ghost m = entry_map(entries@.take(i as int), id);
            let ghost m1 = entry_map(entries@.take(i + 1), id);
            let e = &entries[i];
            let ghost k = e.0@;
            proof {
                assert(entries@.take(i + 1).drop_last() =~= entries@.take(i as int));
                assert(m1 == m.insert(k, e.1));
                OrderedMap::view_is_entry_map(self.running_execs);
                entry_map_value(entries@, id, i as int);
                no_earlier_key(entries@, i as int);
            }
            let hit = match sub_id {
                Some(s) => str_eq(e.1.sub_id.as_str(), s),
                None => true,
            };
            let n = e.1.flags;
            let ghost flags = table.view();
            if hit {
                let f = table.flags[n];
                table.set(n, ExecFlags { cancelled: true, end_emitted: f.end_emitted });
            }
            proof {
                let want = cancelled_flags(before, m1, sub);
                assert forall|x: int| 0 <= x < want.len() implies #[trigger] table.view()[x]
                    == want[x] by {
                    assert(flags[x] == cancelled_flags(before, m, sub)[x]);
                    if is_running(m, x, sub) {
                        let l = choose|l: Seq<char>|
                            #[trigger] m.contains_key(l) && m[l].flags == x && belongs(m[l], sub);
                        assert(m1.contains_key(l));
                    }
                    if is_running(m1, x, sub) {
                        let l = choose|l: Seq<char>|
                            #[trigger] m1.contains_key(l) && m1[l].flags == x && belongs(
                                m1[l],
                                sub,
                            );
                        if l != k {
                            assert(m.contains_key(l));
                        }
                    }
                    if x == n && hit {
                        assert(m1.contains_key(k));
                    }
                }
                assert(table.view() =~= want);
            }
            i = i + 1;
        }
        proof {
            assert(entries@.take(entries@.len() as int) =~= entries@);
            OrderedMap::view_is_entry_map(self.running_execs);
        }
    }

    /// Notes that the user cancelled the running commands of a submission.
    pub fn mark_running_exec_as_cancelled(&self, table: &mut FlagTable, sub_id: &str)
        requires
            numbers_fit(self.view(), old(table).view().len()),
        ensures
            final(table).view() == cancelled_flags(old(table).view(), self.view(), Some(sub_id@)),
    {
        self.cancel(table, Some(sub_id));
    }

    /// Notes that the user cancelled all running commands.
    pub fn mark_all_running_execs_as_cancelled(&self, table: &mut FlagTable)
        requires
            numbers_fit(self.view(), old(table).view().len()),
        ensures
            final(table).view() == cancelled_flags(old(table).view(), self.view(), None),
    {
        self.cancel(table, None);
    }

    /// Tells the end of every command of a submission whose end was not told: it
    /// was cancelled. None of them is then listed as running.
    pub fn finalize_cancelled_execs(&mut self, table: &mut FlagTable, sub_id: &str) -> (events: Vec<
        OrderedEvent,
    >)
        requires
            numbers_fit(old(self).view(), old(table).view().len()),
        ensures
            final(self).view() == still_running(old(self).view(), old(table).view(), sub_id@),
            final(table).view() == finalized_flags(
                old(table).view(),
                old(self).view(),
                sub_id@,
            ),
            tell_cancelled(
                events@,
                open_execs(
                    old(self).running_execs.spec_entries(),
                    old(table).view(),
                    sub_id@,
                ),
                sub_id@,
            ),
    {
        let ghost flags0 = table.view();
        let ghost execs0 = self.view();
        let ghost id = |v: RunningExecMeta| v;
        let ghost f = |e: (String, RunningExecMeta)| is_open(e.1, flags0, sub_id@);
        let mut kept: OrderedMap<RunningExecMeta> = OrderedMap::new();
        let mut events: Vec<OrderedEvent> = Vec::new();
        {
            let entries = self.running_execs.entries();
            let mut i: usize = 0;
            assert(entries@.take(0).filter(f) =~= Seq::empty());
            assert(kept@ =~= still_running(
                entry_map(entries@.take(0), id),
                flags0,
                sub_id@,
            ));
            assert(table.view() =~= finalized_flags(
                flags0,
                entry_map(entries@.take(0), id),
                sub_id@,
            ));
            while i < entries.len()
                invariant
                    i <= entries@.len(),
                    entries@ == self.running_execs.spec_entries(),
                    keys_increase(entries@),
                    execs0 == self.view(),
                    id == (|v: RunningExecMeta| v),
                    f == (|e: (String, RunningExecMeta)| is_open(e.1, flags0, sub_id@)),
                    numbers_fit(execs0, flags0.len()),
                    kept@ == still_running(
                        entry_map(entries@.take(i as int), id),
                        flags0,
                        sub_id@,
                    ),
                    table.view() == finalized_flags(
                        flags0,
                        entry_map(entries@.take(i as int), id),
                        sub_id@,
                    ),
                    tell_cancelled(events@, entries@.take(i as int).filter(f), sub_id@),
                decreases entries@.len() - i,
            {
                let ghost m = entry_map(entries@.take(i as int), id);
                let ghost m1 = entry_map(entries@.take(i + 1), id);
                let e = &entries[i];
                let ghost k = e.0@;
                let n = e.1.flags;
                proof {
                    reveal(Seq::filter);
                    assert(entries@.take(i + 1).drop_last() =~= entries@.take(i as int));
                    assert(entries@.take(i + 1).last() == entries@[i as int]);
                    assert(m1 == m.insert(k, e.1));
                    OrderedMap::view_is_entry_map(self.running_execs);
                    entry_map_value(entries@, id, i as int);
                    no_earlier_key(entries@, i as int);
                    entries_are_members(entries@, id, i as int);
                    assert(!m.contains_key(k));
                    assert(!is_finalized(m, flags0, sub_id@, n as int)) by {
                        if is_finalized(m, flags0, sub_id@, n as int) {
                            let l = choose|l: Seq<char>|
                                #[trigger] m.contains_key(l) && m[l].flags == n && is_open(
                                    m[l],
                                    flags0,
                                    sub_id@,
                                );
                            assert(execs0.contains_key(l) && execs0[l] == m[l]);
                            assert(execs0.contains_key(k));
                        }
                    }
                    assert(table.view()[n as int] == flags0[n as int]);
                }
                let ghost flags = table.view();
                let open = str_eq(e.1.sub_id.as_str(), sub_id) && !table.flags[n].end_emitted;
                if open {
                    table.set(n, ExecFlags { cancelled: true, end_emitted: true });
                    let ghost before = events@;
                    events.push(
                        synthetic_end_event(sub_id, e.0.as_str(), e.1.order_meta, true),
                    );
                    proof {
                        let longer = entries@.take(i + 1).filter(f);
                        let shorter = entries@.take(i as int).filter(f);
                        assert(longer == shorter.push(*e));
                        assert forall|x: int| 0 <= x < events@.len() implies is_synthetic_end(
                            #[trigger] events@[x],
                            sub_id@,
                            longer[x].0@,
                            longer[x].1.order_meta,
                            true,
                        ) by {
                            if x < before.len() {
                                assert(events@[x] == before[x]);
                                assert(longer[x] == shorter[x]);
                            }
                        }
                    }
                } else {
                    kept.insert(e.0.clone(), e.1.clone());
                }
                proof {
                    assert(kept@ =~= still_running(m1, flags0, sub_id@));
                    let want = finalized_flags(flags0, m1, sub_id@);
                    assert forall|x: int| 0 <= x < want.len() implies #[trigger] table.view()[x]
                        == want[x] by {
                        assert(flags[x] == finalized_flags(flags0, m, sub_id@)[x]);
                        if is_finalized(m, flags0, sub_id@, x) {
                            let l = choose|l: Seq<char>|
                                #[trigger] m.contains_key(l) && m[l].flags == x && is_open(
                                    m[l],
                                    flags0,
                                    sub_id@,
                                );
                            assert(m1.contains_key(l) && m1[l] == m[l]);
                        }
                        if is_finalized(m1, flags0, sub_id@, x) {
                            let l = choose|l: Seq<char>|
                                #[trigger] m1.contains_key(l) && m1[l].flags == x && is_open(
                                    m1[l],
                                    flags0,
                                    sub_id@,
                                );
                            if l != k {
                                assert(m.contains_key(l) && m[l] == m1[l]);
                            }
                        }
                        if x == n && open {
                            assert(m1.contains_key(k) && m1[k] == e.1);
                        }
                    }
                    assert(table.view() =~= want);
                }
                i = i + 1;
            }
            proof {
                assert(entries@.take(entries@.len() as int) =~= entries@);
                OrderedMap::view_is_entry_map(self.running_execs);
            }
        }
        self.running_execs = kept;
        events
    }
}

proof fn no_earlier_key(entries: Seq<(String, RunningExecMeta)>, i: int)
    requires
        keys_increase(entries),
        0 <= i < entries.len(),
    ensures
        !entry_map(entries.take(i), |v: RunningExecMeta| v).contains_key(entries[i].0@),
{
    let id = |v: RunningExecMeta| v;
    let t = entries.take(i);
    entry_map_domain(t, id, entries[i].0@);
    if has_key(t, entries[i].0@) {
        let j = choose|j: int| 0 <= j < t.len() && #[trigger] t[j].0@ == entries[i].0@;
        assert(t[j] == entries[j]);
        assert(crate::text::lex_lt(entries[j].0@, entries[i].0@));
        lex_lt_irreflexive(entries[i].0@);
    }
}

proof fn entries_are_members(
    entries: Seq<(String, RunningExecMeta)>,
    id: spec_fn(RunningExecMeta) -> RunningExecMeta,
    i: int,
)
    requires
        keys_increase(entries),
        0 <= i <= entries.len(),
    ensures
        forall|l: Seq<char>|
            #[trigger] entry_map(entries.take(i), id).contains_key(l) ==> entry_map(
                entries,
                id,
            ).contains_key(l) && entry_map(entries, id)[l] == entry_map(entries.take(i), id)[l],
{
    let t = entries.take(i);
    assert(keys_increase(t));
    assert forall|l: Seq<char>| #[trigger] entry_map(t, id).contains_key(l) implies entry_map(
        entries,
        id,
    ).contains_key(l) && entry_map(entries, id)[l] == entry_map(t, id)[l] by {
        entry_map_domain(t, id, l);
        let j = choose|j: int| 0 <= j < t.len() && #[trigger] t[j].0@ == l;
        entry_map_value(t, id, j);
        entry_map_value(entries, id, j);
        assert(t[j] == entries[j]);
    }
}

/// Whoever runs a command sees to it that its end is told, also where nobody waits
/// for it any more.
#[derive(Debug, PartialEq, Eq)]
pub struct ExecDropGuard {
    pub sub_id: String,
    pub call_id: String,
    pub order_meta: OrderMeta,
    /// The number of the command.
    pub flags: usize,
    /// The command ended by itself, and its end was told.
    pub completed: bool,
}

/// The end of a command that nobody waits for any more. Where the session is gone,
/// it is told directly.
#[derive(Debug, PartialEq)]
pub struct DroppedExec {
    pub event: OrderedEvent,
    pub session_gone: bool,
}

impl ExecDropGuard {
    /// Watches for the end of a command.
    pub fn new(sub_id: String, call_id: String, order_meta: OrderMeta, flags: usize) -> (g: Self)
        ensures
            g == (ExecDropGuard { sub_id, call_id, order_meta, flags, completed: false }),
    {
        ExecDropGuard { sub_id, call_id, order_meta, flags, completed: false }
    }

    /// Lists the command as running no longer, where the session still lives.
    pub fn remove_from_registry(&self, session: &mut Session, session_alive: bool)
        ensures
            final(session).view() == if session_alive {
                old(session).view().remove(self.call_id@)
            } else {
                old(session).view()
            },
    {
        if session_alive {
            session.unregister_running_exec(self.call_id.as_str());
        }
    }

    /// Notes that the command ended by itself and that its end was told.
    pub fn mark_completed(
        &mut self,
        table: &mut FlagTable,
        session: &mut Session,
        session_alive: bool,
    )
        requires
            old(self).flags < old(table).view().len(),
        ensures
            *final(self) == (ExecDropGuard { completed: true, ..*old(self) }),
            final(table).view() == old(table).view().update(
                old(self).flags as int,
                ExecFlags {
                    end_emitted: true,
                    ..old(table).view()[old(self).flags as int]
                },
            ),
            final(session).view() == if session_alive {
                old(session).view().remove(old(self).call_id@)
            } else {
                old(session).view()
            },
    {
        self.completed = true;
        let f = table.flags[self.flags];
        table.set(self.flags, ExecFlags { cancelled: f.cancelled, end_emitted: true });
        self.remove_from_registry(session, session_alive);
    }

    /// Gives the command up. Its end is told now, unless it was told before: it was
    /// cancelled, or interrupted.
    pub fn give_up(
        self,
        table: &mut FlagTable,
        session: &mut Session,
        session_alive: bool,
    ) -> (r: Option<DroppedExec>)
        requires
            self.flags < old(table).view().len(),
        ensures
            final(session).view() == if session_alive {
                old(session).view().remove(self.call_id@)
            } else {
                old(session).view()
            },
            ({
                let f = old(table).view()[self.flags as int];
                if self.completed || f.end_emitted {
                    r is None && final(table).view() == old(table).view()
                } else {
                    &&& final(table).view() == old(table).view().update(
                        self.flags as int,
                        ExecFlags { end_emitted: true, ..f },
                    )
                    &&& r matches Some(d) && d.session_gone == !session_alive && is_synthetic_end(
                        d.event,
                        self.sub_id@,
                        self.call_id@,
                        self.order_meta,
                        f.cancelled,
                    )
                }
            }),
    {
        let ghost before = table.view();
        self.remove_from_registry(session, session_alive);
        if self.completed {
            return None;
        }
        let f = table.flags[self.flags];
        if f.end_emitted {
            return None;
        }
        table.set(self.flags, ExecFlags { cancelled: f.cancelled, end_emitted: true });
        let event = synthetic_end_event(
            self.sub_id.as_str(),
            self.call_id.as_str(),
            self.order_meta,
            f.cancelled,
        );
        Some(DroppedExec { event, session_gone: !session_alive })
    }
}

/// What was told is never taken back: finalizing keeps every mark that is set.
pub proof fn finalizing_keeps_marks(
    flags: Seq<ExecFlags>,
    execs: Map<Seq<char>, RunningExecMeta>,
    sub_id: Seq<char>,
    i: int,
)
    requires
        0 <= i < flags.len(),
    ensures
        flags[i].end_emitted ==> finalized_flags(flags, execs, sub_id)[i].end_emitted,
        flags[i].cancelled ==> finalized_flags(flags, execs, sub_id)[i].cancelled,
{
}

/// The end of a command is told once: after its end was told by finalizing, no
/// command of the submission is still open.
pub proof fn finalized_once(
    flags: Seq<ExecFlags>,
    execs: Map<Seq<char>, RunningExecMeta>,
    sub_id: Seq<char>,
    k: Seq<char>,
)
    requires
        numbers_fit(execs, flags.len()),
        execs.contains_key(k),
        execs[k].sub_id@ == sub_id,
    ensures
        finalized_flags(flags, execs, sub_id)[execs[k].flags as int].end_emitted,
        !is_open(execs[k], finalized_flags(flags, execs, sub_id), sub_id),
{
    let n = execs[k].flags as int;
    if !flags[n].end_emitted {
        assert(is_finalized(execs, flags, sub_id, n));
    }
}

/// Finalizing a second time tells nothing.
pub proof fn finalizing_twice_tells_nothing(
    entries: Seq<(String, RunningExecMeta)>,
    flags: Seq<ExecFlags>,
    execs: Map<Seq<char>, RunningExecMeta>,
    sub_id: Seq<char>,
)
    requires
        numbers_fit(execs, flags.len()),
        forall|i: int|
            0 <= i < entries.len() ==> execs.contains_key((#[trigger] entries[i]).0@)
                && execs[entries[i].0@] == entries[i].1,
    ensures
        open_execs(entries, finalized_flags(flags, execs, sub_id), sub_id).len() == 0,
    decreases entries.len(),
{
    reveal(Seq::filter);
    if entries.len() > 0 {
        let e = entries.last();
        let t = entries.drop_last();
        assert forall|i: int| 0 <= i < t.len() implies execs.contains_key((#[trigger] t[i]).0@)
            && execs[t[i].0@] == t[i].1 by {
            assert(t[i] == entries[i]);
        }
        finalizing_twice_tells_nothing(t, flags, execs, sub_id);
        assert(entries[entries.len() - 1] == e);
        if e.1.sub_id@ == sub_id {
            finalized_once(flags, execs, sub_id, e.0@);
        }
    }
}

/// A command of another submission is left alone.
pub proof fn finalizing_leaves_others(
    flags: Seq<ExecFlags>,
    execs: Map<Seq<char>, RunningExecMeta>,
    sub_id: Seq<char>,
    k: Seq<char>,
)
    requires
        numbers_fit(execs, flags.len()),
        execs.contains_key(k),
        execs[k].sub_id@ != sub_id,
    ensures
        still_running(execs, flags, sub_id).contains_key(k),
        still_running(execs, flags, sub_id)[k] == execs[k],
        finalized_flags(flags, execs, sub_id)[execs[k].flags as int] == flags[execs[k].flags as int],
{
    let n = execs[k].flags as int;
    if is_finalized(execs, flags, sub_id, n) {
        let l = choose|l: Seq<char>|
            #[trigger] execs.contains_key(l) && execs[l].flags == n && is_open(
                execs[l],
                flags,
                sub_id,
            );
        assert(l == k);
    }
}

/// Cancelling commands tells the end of none.
pub proof fn cancelling_tells_nothing(
    flags: Seq<ExecFlags>,
    execs: Map<Seq<char>, RunningExecMeta>,
    sub_id: Option<Seq<char>>,
    i: int,
)
    requires
        0 <= i < flags.len(),
    ensures
        cancelled_flags(flags, execs, sub_id)[i].end_emitted == flags[i].end_emitted,
        flags[i].cancelled ==> cancelled_flags(flags, execs, sub_id)[i].cancelled,
{
}

/// A command that is listed with a number of its own leaves all numbers distinct,
/// and so does whatever takes commands off the list.
pub proof fn numbers_stay_distinct(
    execs: Map<Seq<char>, RunningExecMeta>,
    flags: Seq<ExecFlags>,
    call_id: Seq<char>,
    meta: RunningExecMeta,
    sub_id: Seq<char>,
)
    requires
        numbers_fit(execs, flags.len()),
        meta.flags == flags.len(),
    ensures
        numbers_fit(execs.insert(call_id, meta), flags.len() + 1),
        numbers_fit(execs.remove(call_id), flags.len()),
        numbers_fit(still_running(execs, flags, sub_id), flags.len()),
        finalized_flags(flags, execs, sub_id).len() == flags.len(),
{
}

} // verus!
