use vstd::prelude::*;

use crate::codec::{le16, le32, HistoricalEntry, HistoricalView, HISTORICAL_LEN};
use crate::error::Error;
use crate::protocol::{
    clock_char, cmd_history_read_init, control_char, entry_address_bytes, entry_char,
    historical_entry_address, history_init_bytes, CharacteristicAddress,
};
use crate::transport::{
    read_error, read_failure, write_error, write_failure, Command, CommandView, Reply,
};

verus! {

/// Length of the reply that carries the number of stored entries.
pub const COUNT_LEN: usize = 2;
/// Length of the reply that carries the device's seconds since boot.
pub const CLOCK_LEN: usize = 4;
/// Nanoseconds in a second.
pub const NANOS_PER_SEC: u128 = 1_000_000_000;

/// Wall-clock second of the device's boot: the whole seconds of the midpoint
/// between the two instants around the clock read, less the seconds since
/// boot the device reported (zero if the device reports more than that).
pub open spec fn epoch_of(started_ns: u64, finished_ns: u64, since_boot: int) -> int {
    let wall = (started_ns + finished_ns) / 2 / (NANOS_PER_SEC as int);
    if wall >= since_boot {
        wall - since_boot
    } else {
        0
    }
}

/// Computes the boot epoch from the timing of the clock read.
pub fn boot_epoch(started_ns: u64, finished_ns: u64, since_boot: u32) -> (r: u64)
    ensures
        r == epoch_of(started_ns, finished_ns, since_boot as int),
{
    let wall = ((started_ns as u128 + finished_ns as u128) / 2 / NANOS_PER_SEC) as u64;
    if wall >= since_boot as u64 {
        wall - since_boot as u64
    } else {
        0
    }
}

/// Where a history read stands: what the reply it awaits answers.
#[derive(Debug, Clone, Copy, PartialEq, Eq)]
pub enum HistoryPhase {
    /// The read-init command was written.
    Init,
    /// The entry count was requested.
    Count,
    /// The device clock was requested.
    Clock,
    /// The command selecting this entry was written.
    Select(u16),
    /// This entry was requested.
    Entry(u16),
}

pub struct HistoryState {
    pub phase: HistoryPhase,
    pub count: u16,
    pub epoch_time: u64,
    pub entries: Seq<HistoricalView>,
}

pub enum HistoryStepView {
    Issue(HistoryState, CommandView),
    Finished(Result<Seq<HistoricalView>, Error>),
}

/// The state a history read starts in, after it wrote the read-init command.
pub open spec fn history_start() -> HistoryState {
    HistoryState { phase: HistoryPhase::Init, count: 0, epoch_time: 0, entries: seq![] }
}

/// One step of a history read: how the state `s` answers `reply`.
pub open spec fn history_next(s: HistoryState, reply: Reply) -> HistoryStepView {
    match s.phase {
        HistoryPhase::Init => match reply.result {
            Err(f) => HistoryStepView::Finished(Err(write_error(control_char(), f))),
            Ok(_) => HistoryStepView::Issue(
                HistoryState { phase: HistoryPhase::Count, ..s },
                CommandView::Read(entry_char()),
            ),
        },
        HistoryPhase::Count => match reply.result {
            Err(f) => HistoryStepView::Finished(Err(read_error(entry_char(), f))),
            Ok(d) => if d@.len() < COUNT_LEN {
                HistoryStepView::Finished(
                    Err(Error::PayloadTooShort { expected: COUNT_LEN, actual: d@.len() as usize }),
                )
            } else if le16(d@[0], d@[1]) == 0 {
                HistoryStepView::Finished(Ok(seq![]))
            } else {
                HistoryStepView::Issue(
                    HistoryState {
                        phase: HistoryPhase::Clock,
                        count: le16(d@[0], d@[1]) as u16,
                        ..s
                    },
                    CommandView::Read(clock_char()),
                )
            },
        },
        HistoryPhase::Clock => match reply.result {
            Err(f) => HistoryStepView::Finished(Err(read_error(clock_char(), f))),
            Ok(d) => if d@.len() < CLOCK_LEN {
                HistoryStepView::Finished(
                    Err(Error::PayloadTooShort { expected: CLOCK_LEN, actual: d@.len() as usize }),
                )
            } else {
                HistoryStepView::Issue(
                    HistoryState {
                        phase: HistoryPhase::Select(0),
                        epoch_time: epoch_of(
                            reply.started_ns,
                            reply.finished_ns,
                            le32(d@[0], d@[1], d@[2], d@[3]),
                        ) as u64,
                        ..s
                    },
                    CommandView::Write(control_char(), entry_address_bytes(0)),
                )
            },
        },
        HistoryPhase::Select(i) => match reply.result {
            Err(f) => HistoryStepView::Finished(Err(write_error(control_char(), f))),
            Ok(_) => HistoryStepView::Issue(
                HistoryState { phase: HistoryPhase::Entry(i), ..s },
                CommandView::Read(entry_char()),
            ),
        },
        HistoryPhase::Entry(i) => match reply.result {
            Err(f) => HistoryStepView::Finished(Err(read_error(entry_char(), f))),
            Ok(d) => if d@.len() < HISTORICAL_LEN {
                HistoryStepView::Finished(
                    Err(
                        Error::PayloadTooShort {
                            expected: HISTORICAL_LEN,
                            actual: d@.len() as usize,
                        },
                    ),
                )
            } else if i + 1 >= s.count {
                HistoryStepView::Finished(
                    Ok(s.entries.push(HistoricalView { epoch_time: s.epoch_time, raw: d@ })),
                )
            } else {
                HistoryStepView::Issue(
                    HistoryState {
                        phase: HistoryPhase::Select((i + 1) as u16),
                        entries: s.entries.push(
                            HistoricalView { epoch_time: s.epoch_time, raw: d@ },
                        ),
                        ..s
                    },
                    CommandView::Write(control_char(), entry_address_bytes((i + 1) as u16)),
                )
            },
        },
    }
}

pub open spec fn views_of(v: Seq<HistoricalEntry>) -> Seq<HistoricalView> {
    v.map_values(|e: HistoricalEntry| e@)
}

/// The exchange that reads every entry stored on the device.
///
/// It writes the read-init command, reads the entry count, and stops there
/// when the count is zero. Otherwise it reads the device clock once, then for
/// each index in order writes the selecting command and reads the entry.
/// Every failure ends the exchange with its error; nothing is retried.
pub struct HistoryReader {
    phase: HistoryPhase,
    count: u16,
    epoch_time: u64,
    entries: Vec<HistoricalEntry>,
}

impl View for HistoryReader {
    type V = HistoryState;

    closed spec fn view(&self) -> HistoryState {
        HistoryState {
            phase: self.phase,
            count: self.count,
            epoch_time: self.epoch_time,
            entries: views_of(self.entries@),
        }
    }
}

/// What a history read asks for next, or how it ended.
pub enum HistoryStep {
    Issue(HistoryReader, Command),
    Finished(Result<Vec<HistoricalEntry>, Error>),
}

impl View for HistoryStep {
    type V = HistoryStepView;

    open spec fn view(&self) -> HistoryStepView {
        match self {
            HistoryStep::Issue(m, c) => HistoryStepView::Issue(m@, c@),
            HistoryStep::Finished(Ok(v)) => HistoryStepView::Finished(Ok(views_of(v@))),
            HistoryStep::Finished(Err(e)) => HistoryStepView::Finished(Err(*e)),
        }
    }
}

impl HistoryReader {
    /// Starts a history read: the returned command writes read-init to the
    /// control characteristic.
    pub fn start() -> (r: (HistoryReader, Command))
        ensures
            r.0@ == history_start(),
            r.1@ == CommandView::Write(control_char(), history_init_bytes()),
    {
        let m = HistoryReader {
            phase: HistoryPhase::Init,
            count: 0,
            epoch_time: 0,
            entries: Vec::new(),
        };
        proof {
            assert(views_of(m.entries@) =~= seq![]);
        }
        (m, Command::Write(CharacteristicAddress::history_control(), cmd_history_read_init()))
    }

    /// Feeds the reply to the last command issued.
    pub fn advance(self, reply: Reply) -> (r: HistoryStep)
        ensures
            r@ == history_next(self@, reply),
    {
        let ghost old_entries = views_of(self.entries@);
        let HistoryReader { phase, count, epoch_time, mut entries } = self;
        match phase {
            HistoryPhase::Init => match reply.result {
                Err(f) => HistoryStep::Finished(
                    Err(write_failure(CharacteristicAddress::history_control(), f)),
                ),
                Ok(_) => HistoryStep::Issue(
                    HistoryReader { phase: HistoryPhase::Count, count, epoch_time, entries },
                    Command::Read(CharacteristicAddress::history_read()),
                ),
            },
            HistoryPhase::Count => match reply.result {
                Err(f) => HistoryStep::Finished(
                    Err(read_failure(CharacteristicAddress::history_read(), f)),
                ),
                Ok(d) => {
                    if d.len() < COUNT_LEN {
                        HistoryStep::Finished(
                            Err(Error::PayloadTooShort { expected: COUNT_LEN, actual: d.len() }),
                        )
                    } else {
                        let n = d[0] as u16 + (d[1] as u16) * 256;
                        if n == 0 {
                            let empty: Vec<HistoricalEntry> = Vec::new();
                            proof {
                                assert(views_of(empty@) =~= seq![]);
                            }
                            HistoryStep::Finished(Ok(empty))
                        } else {
                            HistoryStep::Issue(
                                HistoryReader {
                                    phase: HistoryPhase::Clock,
                                    count: n,
                                    epoch_time,
                                    entries,
                                },
                                Command::Read(CharacteristicAddress::history_time()),
                            )
                        }
                    }
                },
            },
            HistoryPhase::Clock => match reply.result {
                Err(f) => HistoryStep::Finished(
                    Err(read_failure(CharacteristicAddress::history_time(), f)),
                ),
                Ok(d) => {
                    if d.len() < CLOCK_LEN {
                        HistoryStep::Finished(
                            Err(Error::PayloadTooShort { expected: CLOCK_LEN, actual: d.len() }),
                        )
                    } else {
                        let since_boot = d[0] as u32 + (d[1] as u32) * 256 + (d[2] as u32)
                            * 65536 + (d[3] as u32) * 16777216;
                        let epoch = boot_epoch(reply.started_ns, reply.finished_ns, since_boot);
                        HistoryStep::Issue(
                            HistoryReader {
                                phase: HistoryPhase::Select(0),
                                count,
                                epoch_time: epoch,
                                entries,
                            },
                            Command::Write(
                                CharacteristicAddress::history_control(),
                                historical_entry_address(0),
                            ),
                        )
                    }
                },
            },
            HistoryPhase::Select(i) => match reply.result {
                Err(f) => HistoryStep::Finished(
                    Err(write_failure(CharacteristicAddress::history_control(), f)),
                ),
                Ok(_) => HistoryStep::Issue(
                    HistoryReader { phase: HistoryPhase::Entry(i), count, epoch_time, entries },
                    Command::Read(CharacteristicAddress::history_read()),
                ),
            },
            HistoryPhase::Entry(i) => match reply.result {
                Err(f) => HistoryStep::Finished(
                    Err(read_failure(CharacteristicAddress::history_read(), f)),
                ),
                Ok(d) => {
                    let ghost raw = d@;
                    match HistoricalEntry::decode(d, epoch_time) {
                        Err(e) => HistoryStep::Finished(Err(e)),
                        Ok(entry) => {
                            entries.push(entry);
                            proof {
                                assert(views_of(entries@) =~= old_entries.push(
                                    HistoricalView { epoch_time, raw },
                                ));
                            }
                            if i as u32 + 1 >= count as u32 {
                                HistoryStep::Finished(Ok(entries))
                            } else {
                                let next = i + 1;
                                HistoryStep::Issue(
                                    HistoryReader {
                                        phase: HistoryPhase::Select(next),
                                        count,
                                        epoch_time,
                                        entries,
                                    },
                                    Command::Write(
                                        CharacteristicAddress::history_control(),
                                        historical_entry_address(next),
                                    ),
                                )
                            }
                        },
                    }
                },
            },
        }
    }
}

/// What a history read does when its commands are answered by `replies` in
/// turn: the commands it issues after its first one, and its result, if it
/// finished before the replies ran out.
pub open spec fn history_run(s: HistoryState, replies: Seq<Reply>) -> (
    Seq<CommandView>,
    Option<Result<Seq<HistoricalView>, Error>>,
)
    decreases replies.len(),
{
    if replies.len() == 0 {
        (seq![], None)
    } else {
        match history_next(s, replies[0]) {
            HistoryStepView::Issue(s2, c) => {
                let (cs, out) = history_run(s2, replies.drop_first());
                (seq![c].add(cs), out)
            },
            HistoryStepView::Finished(r) => (seq![], Some(r)),
        }
    }
}

/// The reply succeeded and carried at least `len` bytes.
pub open spec fn ok_with(reply: Reply, len: int) -> bool {
    reply.result is Ok && reply.result->Ok_0@.len() >= len
}

/// The bytes a successful reply carried.
pub open spec fn bytes_of(reply: Reply) -> Seq<u8> {
    reply.result->Ok_0@
}

/// When the device reports no stored entries, a history read ends right after
/// the count read with an empty result: the device clock is never read, and
/// no entry is selected.
pub proof fn empty_history_skips_clock(replies: Seq<Reply>)
    requires
        replies.len() >= 2,
        replies[0].result is Ok,
        ok_with(replies[1], COUNT_LEN as int),
        le16(bytes_of(replies[1])[0], bytes_of(replies[1])[1]) == 0,
    ensures
        history_run(history_start(), replies) == (
            seq![CommandView::Read(entry_char())],
            Some(Ok::<Seq<HistoricalView>, Error>(seq![])),
        ),
{
    let s1 = HistoryState { phase: HistoryPhase::Count, ..history_start() };
    assert(history_run(s1, replies.drop_first()).0 =~= seq![]);
    let first = seq![CommandView::Read(entry_char())];
    assert(first.add(seq![]) =~= first);
}

/// From the state that awaits the acknowledgement of the command selecting
/// entry `i`, with the replies all successful, the read pages through the
/// remaining entries in index order.
proof fn lemma_paging(s: HistoryState, rs: Seq<Reply>, i: u16)
    requires
        s.phase == HistoryPhase::Select(i),
        i < s.count,
        s.entries.len() == i,
        rs.len() >= 2 * (s.count - i),
        forall|j: int|
            0 <= j < s.count - i ==> #[trigger] rs[2 * j].result is Ok && ok_with(
                rs[2 * j + 1],
                HISTORICAL_LEN as int,
            ),
    ensures
        ({
            let (cmds, out) = history_run(s, rs);
            &&& cmds.len() == 2 * (s.count - i) - 1
            &&& cmds[0] == CommandView::Read(entry_char())
            &&& forall|j: int|
                1 <= j < s.count - i ==> cmds[2 * j - 1] == CommandView::Write(
                    control_char(),
                    entry_address_bytes((i + j) as u16),
                ) && #[trigger] cmds[2 * j] == CommandView::Read(entry_char())
            &&& out is Some && out->Some_0 is Ok
            &&& out->Some_0->Ok_0.len() == s.count
            &&& out->Some_0->Ok_0.subrange(0, i as int) == s.entries
            &&& forall|j: int|
                0 <= j < s.count - i ==> out->Some_0->Ok_0[i + j] == (HistoricalView {
                    epoch_time: s.epoch_time,
                    raw: bytes_of(#[trigger] rs[2 * j + 1]),
                })
        }),
    decreases s.count - i,
{
    assert(rs[0].result is Ok && ok_with(rs[1], HISTORICAL_LEN as int)) by {
        assert(rs[2 * 0int].result is Ok);
    }
    let s1 = HistoryState { phase: HistoryPhase::Entry(i), ..s };
    let rs1 = rs.drop_first();
    let rs2 = rs1.drop_first();
    let e = HistoricalView { epoch_time: s.epoch_time, raw: bytes_of(rs[1]) };
    assert(rs1[0] == rs[1]);
    if i + 1 >= s.count {
        assert(history_run(s1, rs1) == (
            Seq::<CommandView>::empty(),
            Some(Ok::<Seq<HistoricalView>, Error>(s.entries.push(e))),
        ));
        let (cmds, out) = history_run(s, rs);
        assert(cmds =~= seq![CommandView::Read(entry_char())]);
        assert(out->Some_0->Ok_0.subrange(0, i as int) =~= s.entries);
        assert forall|j: int|
            0 <= j < s.count - i implies out->Some_0->Ok_0[i + j] == (HistoricalView {
                epoch_time: s.epoch_time,
                raw: bytes_of(#[trigger] rs[2 * j + 1]),
            }) by {
            assert(j == 0);
        }
    } else {
        let n = (i + 1) as u16;
        let s2 = HistoryState { phase: HistoryPhase::Select(n), entries: s.entries.push(e), ..s };
        let c2 = CommandView::Write(control_char(), entry_address_bytes(n));
        assert(history_next(s1, rs1[0]) == HistoryStepView::Issue(s2, c2));
        assert forall|j: int|
            0 <= j < s2.count - n implies #[trigger] rs2[2 * j].result is Ok && ok_with(
                rs2[2 * j + 1],
                HISTORICAL_LEN as int,
            ) by {
            assert(rs2[2 * j] == rs[2 * (j + 1)]);
            assert(rs2[2 * j + 1] == rs[2 * (j + 1) + 1]);
        }
        lemma_paging(s2, rs2, n);
        let (cmds2, out2) = history_run(s2, rs2);
        let (cmds1, out1) = history_run(s1, rs1);
        assert(cmds1 == seq![c2].add(cmds2));
        assert(out1 == out2);
        let (cmds, out) = history_run(s, rs);
        assert(cmds == seq![CommandView::Read(entry_char())].add(cmds1));
        assert(out == out1);
        assert forall|j: int|
            1 <= j < s.count - i implies cmds[2 * j - 1] == CommandView::Write(
                control_char(),
                entry_address_bytes((i + j) as u16),
            ) && #[trigger] cmds[2 * j] == CommandView::Read(entry_char()) by {
            if j > 1 {
                assert(cmds[2 * j - 1] == cmds2[2 * (j - 1) - 1]);
                assert(cmds[2 * j] == cmds2[2 * (j - 1)]);
            }
        }
        let res = out->Some_0->Ok_0;
        assert(res.subrange(0, i as int) =~= s.entries) by {
            assert(res.subrange(0, n as int) == s2.entries);
            assert forall|k: int| 0 <= k < i implies res[k] == s.entries[k] by {
                assert(res.subrange(0, n as int)[k] == res[k]);
            }
        }
        assert forall|j: int|
            0 <= j < s.count - i implies res[i + j] == (HistoricalView {
                epoch_time: s.epoch_time,
                raw: bytes_of(#[trigger] rs[2 * j + 1]),
            }) by {
            if j == 0 {
                assert(res.subrange(0, n as int)[i as int] == res[i as int]);
            } else {
                assert(rs2[2 * (j - 1) + 1] == rs[2 * j + 1]);
            }
        }
    }
}

/// The entry count a successful count reply carries.
pub open spec fn count_of(reply: Reply) -> int {
    le16(bytes_of(reply)[0], bytes_of(reply)[1])
}

/// The boot epoch a successful clock reply gives.
pub open spec fn clock_epoch(reply: Reply) -> u64 {
    let b = bytes_of(reply);
    epoch_of(reply.started_ns, reply.finished_ns, le32(b[0], b[1], b[2], b[3])) as u64
}

/// When the device reports `n > 0` stored entries and every command
/// succeeds, a history read reads the device clock exactly once, then makes
/// `n` round trips (write the command selecting entry `j`, read the entry) in
/// index order, and returns the `n` entries in that order, all carrying the
/// one epoch computed from the clock read.
pub proof fn paged_history_reads_clock_once(replies: Seq<Reply>)
    requires
        replies.len() >= 3,
        replies[0].result is Ok,
        ok_with(replies[1], COUNT_LEN as int),
        count_of(replies[1]) > 0,
        ok_with(replies[2], CLOCK_LEN as int),
        replies.len() >= 3 + 2 * count_of(replies[1]),
        forall|j: int|
            0 <= j < count_of(replies[1]) ==> #[trigger] replies[3 + 2 * j].result is Ok
                && ok_with(replies[4 + 2 * j], HISTORICAL_LEN as int),
    ensures
        ({
            let n = count_of(replies[1]);
            let (cmds, out) = history_run(history_start(), replies);
            &&& cmds.len() == 2 + 2 * n
            &&& cmds[0] == CommandView::Read(entry_char())
            &&& cmds[1] == CommandView::Read(clock_char())
            &&& forall|j: int|
                0 <= j < n ==> cmds[2 + 2 * j] == CommandView::Write(
                    control_char(),
                    entry_address_bytes(j as u16),
                ) && #[trigger] cmds[3 + 2 * j] == CommandView::Read(entry_char())
            &&& forall|k: int|
                0 <= k < cmds.len() && k != 1 ==> #[trigger] cmds[k] != CommandView::Read(
                    clock_char(),
                )
            &&& out is Some && out->Some_0 is Ok
            &&& out->Some_0->Ok_0.len() == n
            &&& forall|j: int|
                0 <= j < n ==> out->Some_0->Ok_0[j] == (HistoricalView {
                    epoch_time: clock_epoch(replies[2]),
                    raw: bytes_of(#[trigger] replies[4 + 2 * j]),
                })
        }),
{
    let n = count_of(replies[1]);
    let s1 = HistoryState { phase: HistoryPhase::Count, ..history_start() };
    let s2 = HistoryState { phase: HistoryPhase::Clock, count: n as u16, ..s1 };
    let s3 = HistoryState {
        phase: HistoryPhase::Select(0),
        epoch_time: clock_epoch(replies[2]),
        ..s2
    };
    let r1 = replies.drop_first();
    let r2 = r1.drop_first();
    let r3 = r2.drop_first();
    assert(r1[0] == replies[1]);
    assert(r2[0] == replies[2]);
    assert(history_next(s2, r2[0]) == HistoryStepView::Issue(
        s3,
        CommandView::Write(control_char(), entry_address_bytes(0)),
    ));
    assert forall|j: int|
        0 <= j < s3.count - 0 implies #[trigger] r3[2 * j].result is Ok && ok_with(
            r3[2 * j + 1],
            HISTORICAL_LEN as int,
        ) by {
        assert(r3[2 * j] == replies[3 + 2 * j]);
        assert(r3[2 * j + 1] == replies[4 + 2 * j]);
    }
    lemma_paging(s3, r3, 0);
    let (c3, o3) = history_run(s3, r3);
    let (c2, o2) = history_run(s2, r2);
    let (c1, o1) = history_run(s1, r1);
    let (cmds, out) = history_run(history_start(), replies);
    assert(c2 == seq![CommandView::Write(control_char(), entry_address_bytes(0))].add(c3));
    assert(c1 == seq![CommandView::Read(clock_char())].add(c2));
    assert(cmds == seq![CommandView::Read(entry_char())].add(c1));
    assert(out == o3);
    assert forall|j: int|
        0 <= j < n implies cmds[2 + 2 * j] == CommandView::Write(
            control_char(),
            entry_address_bytes(j as u16),
        ) && #[trigger] cmds[3 + 2 * j] == CommandView::Read(entry_char()) by {
        if j == 0 {
            assert(cmds[3] == c3[0]);
        } else {
            assert(cmds[2 + 2 * j] == c3[2 * j - 1]);
            assert(cmds[3 + 2 * j] == c3[2 * j]);
        }
    }
    assert forall|k: int|
        0 <= k < cmds.len() && k != 1 implies #[trigger] cmds[k] != CommandView::Read(
            clock_char(),
        ) by {
        if k >= 3 {
            if k % 2 == 0 {
                let j = (k - 2) / 2;
                assert(k == 2 + 2 * j && 0 <= j < n);
                assert(cmds[3 + 2 * j] == CommandView::Read(entry_char()));
            } else {
                let j = (k - 3) / 2;
                assert(k == 3 + 2 * j && 0 <= j < n);
                assert(cmds[3 + 2 * j] == CommandView::Read(entry_char()));
            }
        }
    }
    assert forall|j: int|
        0 <= j < n implies out->Some_0->Ok_0[j] == (HistoricalView {
            epoch_time: clock_epoch(replies[2]),
            raw: bytes_of(#[trigger] replies[4 + 2 * j]),
        }) by {
        assert(r3[2 * j + 1] == replies[4 + 2 * j]);
    }
}

} // verus!
