//! Commits that several shards take part in: every shard prepares its writes, then the
//! decision is recorded, then every shard commits. What a decision leaves undone is done
//! when the server recovers.

use vstd::prelude::*;

use crate::text::{
    cat, contains, dec, holds, join, join_with, lemma_views_push, show, same, strip_prefix, views,
    begins,
};

verus! {

/// What was decided of a transaction.
#[derive(Clone, Copy, PartialEq, Eq, Structural, Debug)]
pub enum TransactionDecision {
    Commit,
    Abort,
}

/// A shard that has prepared writes: of this server, or of the server at an address.
pub struct TransactionParticipantRecord {
    pub location: String,
    pub shard_id: u64,
    pub prepared_id: u64,
}

/// The contents of a participant.
pub struct Participant {
    pub location: Seq<char>,
    pub shard_id: u64,
    pub prepared_id: u64,
}

impl TransactionParticipantRecord {
    pub open spec fn view(&self) -> Participant {
        Participant {
            location: self.location@,
            shard_id: self.shard_id,
            prepared_id: self.prepared_id,
        }
    }
}

/// The contents of participants.
pub open spec fn participant_views(s: Seq<TransactionParticipantRecord>) -> Seq<Participant> {
    s.map_values(|p: TransactionParticipantRecord| p@)
}

/// A decision, with those who take part in it.
pub struct TransactionDecisionRecord {
    pub tx_id: u64,
    pub decision: TransactionDecision,
    pub participants: Vec<TransactionParticipantRecord>,
}

/// The contents of a decision.
pub struct Decision {
    pub tx_id: u64,
    pub decision: TransactionDecision,
    pub participants: Seq<Participant>,
}

impl TransactionDecisionRecord {
    pub open spec fn view(&self) -> Decision {
        Decision {
            tx_id: self.tx_id,
            decision: self.decision,
            participants: participant_views(self.participants@),
        }
    }
}

/// The contents of decisions.
pub open spec fn decision_views(s: Seq<TransactionDecisionRecord>) -> Seq<Decision> {
    s.map_values(|d: TransactionDecisionRecord| d@)
}

/// Writes that this server has prepared: their shard and their number.
#[derive(Clone, Copy)]
pub struct PreparedLocal {
    pub shard_id: u64,
    pub prepared_id: u64,
}

/// Writes that another server has prepared.
pub struct PreparedRemote {
    pub address: String,
    pub shard_id: u64,
    pub prepared_id: u64,
}

/// The contents of writes that another server has prepared.
pub struct PreparedThere {
    pub address: Seq<char>,
    pub shard_id: u64,
    pub prepared_id: u64,
}

impl PreparedRemote {
    pub open spec fn view(&self) -> PreparedThere {
        PreparedThere {
            address: self.address@,
            shard_id: self.shard_id,
            prepared_id: self.prepared_id,
        }
    }
}

/// The contents of writes that other servers have prepared.
pub open spec fn there(s: Seq<PreparedRemote>) -> Seq<PreparedThere> {
    s.map_values(|p: PreparedRemote| p@)
}

/// How writes of this server are recorded.
pub open spec fn local_record(p: PreparedLocal) -> Participant {
    Participant { location: "local"@, shard_id: p.shard_id, prepared_id: p.prepared_id }
}

/// How writes of another server are recorded.
pub open spec fn remote_record(p: PreparedThere) -> Participant {
    Participant {
        location: "remote:"@ + p.address,
        shard_id: p.shard_id,
        prepared_id: p.prepared_id,
    }
}

/// How those are recorded that have prepared their writes.
pub open spec fn records(locals: Seq<PreparedLocal>, remotes: Seq<PreparedThere>) -> Seq<
    Participant,
> {
    locals.map_values(|p: PreparedLocal| local_record(p)) + remotes.map_values(
        |p: PreparedThere| remote_record(p),
    )
}

/// Records those that have prepared their writes.
pub fn decision_participant_records(
    prepared_locals: &[PreparedLocal],
    prepared_remotes: &[PreparedRemote],
) -> (r: Vec<TransactionParticipantRecord>)
    ensures
        participant_views(r@) == records(prepared_locals@, there(prepared_remotes@)),
{
    let mut r: Vec<TransactionParticipantRecord> = Vec::new();
    let mut i: usize = 0;
    let ghost all = records(prepared_locals@, there(prepared_remotes@));
    assert(participant_views(r@) =~= all.take(0));
    while i < prepared_locals.len()
        invariant
            0 <= i <= prepared_locals@.len(),
            all == records(prepared_locals@, there(prepared_remotes@)),
            participant_views(r@) == all.take(i as int),
        decreases prepared_locals@.len() - i,
    {
        let ghost before = r@;
        let p = TransactionParticipantRecord {
            location: "local".to_owned(),
            shard_id: prepared_locals[i].shard_id,
            prepared_id: prepared_locals[i].prepared_id,
        };
        assert(all[i as int] == p@);
        r.push(p);
        assert(participant_views(r@) =~= participant_views(before).push(p@));
        assert(all.take(i + 1) =~= all.take(i as int).push(p@));
        i = i + 1;
    }
    let n: usize = prepared_locals.len();
    let mut j: usize = 0;
    while j < prepared_remotes.len()
        invariant
            0 <= j <= prepared_remotes@.len(),
            n == prepared_locals@.len(),
            all == records(prepared_locals@, there(prepared_remotes@)),
            participant_views(r@) == all.take(n + j),
        decreases prepared_remotes@.len() - j,
    {
        let ghost before = r@;
        let p = TransactionParticipantRecord {
            location: cat("remote:", prepared_remotes[j].address.as_str()),
            shard_id: prepared_remotes[j].shard_id,
            prepared_id: prepared_remotes[j].prepared_id,
        };
        assert(all[n + j] == remote_record(there(prepared_remotes@)[j as int]));
        r.push(p);
        assert(participant_views(r@) =~= participant_views(before).push(p@));
        assert(all.take(n + j + 1) =~= all.take(n + j).push(p@));
        j = j + 1;
    }
    assert(all.take(all.len() as int) =~= all);
    r
}

/// How far a commit has come.
pub enum Phase {
    /// The next shard of this server prepares its writes.
    PrepareLocal,
    /// The next shard of another server prepares its writes.
    PrepareRemote,
    /// The decision to commit is recorded.
    RecordCommit,
    /// A shard of this server commits: the one at this place.
    CommitLocal(usize),
    /// A shard of another server commits: the one at this place.
    CommitRemote(usize),
    /// The decision is struck off, as it has been carried out.
    Clear,
    /// The decision to abort is recorded, for this reason.
    RecordAbort(String),
    /// What has been prepared is given up, for this reason.
    GiveUp(String),
    /// All has been carried out.
    Committed,
    /// The commit ended, for this reason.
    Failed(String),
}

/// How far a commit has come, by its contents.
pub enum Stage {
    PrepareLocal,
    PrepareRemote,
    RecordCommit,
    CommitLocal(nat),
    CommitRemote(nat),
    Clear,
    RecordAbort(Seq<char>),
    GiveUp(Seq<char>),
    Committed,
    Failed(Seq<char>),
}

impl Phase {
    pub open spec fn view(&self) -> Stage {
        match *self {
            Phase::PrepareLocal => Stage::PrepareLocal,
            Phase::PrepareRemote => Stage::PrepareRemote,
            Phase::RecordCommit => Stage::RecordCommit,
            Phase::CommitLocal(i) => Stage::CommitLocal(i as nat),
            Phase::CommitRemote(i) => Stage::CommitRemote(i as nat),
            Phase::Clear => Stage::Clear,
            Phase::RecordAbort(e) => Stage::RecordAbort(e@),
            Phase::GiveUp(e) => Stage::GiveUp(e@),
            Phase::Committed => Stage::Committed,
            Phase::Failed(e) => Stage::Failed(e@),
        }
    }
}

/// What came of the last thing that was done.
pub enum Outcome {
    /// It was done.
    Done,
    /// Writes were prepared, under this number.
    Prepared(u64),
    /// It could not be done, for this reason.
    Refused(String),
    /// The server could not be reached, for this reason.
    Unreachable(String),
}

/// What came of the last thing that was done, by its contents.
pub enum Came {
    Done,
    Prepared(u64),
    Refused(Seq<char>),
    Unreachable(Seq<char>),
}

impl Outcome {
    pub open spec fn view(&self) -> Came {
        match *self {
            Outcome::Done => Came::Done,
            Outcome::Prepared(n) => Came::Prepared(n),
            Outcome::Refused(e) => Came::Refused(e@),
            Outcome::Unreachable(e) => Came::Unreachable(e@),
        }
    }
}

/// A commit that several shards take part in. A commit of a single shard of another server
/// tells the reason of that server as it is, and has nothing to give up where that server
/// does not prepare.
pub struct CommitCoordinator {
    pub local_shards: Vec<u64>,
    pub remote_shards: Vec<(String, u64)>,
    pub single: bool,
    pub prepared_locals: Vec<PreparedLocal>,
    pub prepared_remotes: Vec<PreparedRemote>,
    pub phase: Phase,
}

/// The contents of a commit.
pub struct Commit {
    pub local_shards: Seq<u64>,
    pub remote_shards: Seq<(Seq<char>, u64)>,
    pub single: bool,
    pub locals: Seq<PreparedLocal>,
    pub remotes: Seq<PreparedThere>,
    pub stage: Stage,
}

/// The contents of shards of other servers.
pub open spec fn shard_views(s: Seq<(String, u64)>) -> Seq<(Seq<char>, u64)> {
    s.map_values(|p: (String, u64)| (p.0@, p.1))
}

impl CommitCoordinator {
    pub open spec fn view(&self) -> Commit {
        Commit {
            local_shards: self.local_shards@,
            remote_shards: shard_views(self.remote_shards@),
            single: self.single,
            locals: self.prepared_locals@,
            remotes: there(self.prepared_remotes@),
            stage: self.phase@,
        }
    }
}

/// What comes when a shard of this server, or of another one, has prepared its writes. A commit
/// that no shard takes part in has no decision to record.
pub open spec fn after_prepare(c: Commit) -> Stage {
    if c.locals.len() < c.local_shards.len() {
        Stage::PrepareLocal
    } else if c.remotes.len() < c.remote_shards.len() {
        Stage::PrepareRemote
    } else if nothing_prepared(c) {
        Stage::Clear
    } else {
        Stage::RecordCommit
    }
}

/// Whether no shard has prepared its writes.
pub open spec fn nothing_prepared(c: Commit) -> bool {
    c.locals.len() == 0 && c.remotes.len() == 0
}

/// What comes when a shard does not prepare its writes: all is given up, once that is recorded.
/// Where nothing has been prepared there is nothing to record or to give up, and neither is
/// there in a commit of a single shard of another server.
pub open spec fn after_refusal(c: Commit, e: Seq<char>) -> Stage {
    if c.single || nothing_prepared(c) {
        Stage::Failed(e)
    } else {
        Stage::RecordAbort(e)
    }
}

/// What comes when some of the shards have committed.
pub open spec fn after_commits(c: Commit, locals: nat, remotes: nat) -> Stage {
    if locals < c.locals.len() {
        Stage::CommitLocal(locals)
    } else if remotes < c.remotes.len() {
        Stage::CommitRemote(remotes)
    } else {
        Stage::Clear
    }
}

/// The reason why a shard of another server did not commit.
pub open spec fn commit_failure(c: Commit, p: PreparedThere, e: Seq<char>) -> Seq<char> {
    if c.single {
        e
    } else {
        "commit prepared transaction "@ + dec(p.prepared_id as nat) + " on "@ + p.address
            + " failed: "@ + e
    }
}

/// The reason that something was not done.
pub open spec fn reason(o: Came) -> Seq<char> {
    match o {
        Came::Refused(e) => e,
        Came::Unreachable(e) => e,
        _ => Seq::empty(),
    }
}

/// A commit after the next thing has been done. A shard that does not prepare its writes has
/// all be given up that was prepared, once that is recorded; a server that cannot be reached
/// ends the commit at once, and so does a decision that cannot be recorded. Once the decision
/// to commit is recorded nothing is given up.
pub open spec fn next(c: Commit, o: Came) -> Commit {
    match c.stage {
        Stage::PrepareLocal => match o {
            Came::Prepared(id) => {
                let n = Commit {
                    locals: c.locals.push(
                        PreparedLocal {
                            shard_id: c.local_shards[c.locals.len() as int],
                            prepared_id: id,
                        },
                    ),
                    ..c
                };
                Commit { stage: after_prepare(n), ..n }
            },
            _ => Commit { stage: after_refusal(c, reason(o)), ..c },
        },
        Stage::PrepareRemote => match o {
            Came::Prepared(id) => {
                let shard = c.remote_shards[c.remotes.len() as int];
                let n = Commit {
                    remotes: c.remotes.push(
                        PreparedThere { address: shard.0, shard_id: shard.1, prepared_id: id },
                    ),
                    ..c
                };
                Commit { stage: after_prepare(n), ..n }
            },
            Came::Unreachable(e) => Commit { stage: Stage::Failed(e), ..c },
            _ => Commit { stage: after_refusal(c, reason(o)), ..c },
        },
        Stage::RecordCommit => match o {
            Came::Done => Commit { stage: after_commits(c, 0, 0), ..c },
            _ => Commit { stage: Stage::Failed(reason(o)), ..c },
        },
        Stage::CommitLocal(i) => match o {
            Came::Done => Commit { stage: after_commits(c, i + 1, 0), ..c },
            _ => Commit { stage: Stage::Failed(reason(o)), ..c },
        },
        Stage::CommitRemote(i) => match o {
            Came::Done => Commit { stage: after_commits(c, c.locals.len(), i + 1), ..c },
            _ => Commit {
                stage: Stage::Failed(commit_failure(c, c.remotes[i as int], reason(o))),
                ..c
            },
        },
        Stage::Clear => Commit { stage: Stage::Committed, ..c },
        Stage::RecordAbort(e) => match o {
            Came::Done => Commit { stage: Stage::GiveUp(e), ..c },
            _ => Commit { stage: Stage::Failed(reason(o)), ..c },
        },
        Stage::GiveUp(e) => Commit { stage: Stage::Failed(e), ..c },
        Stage::Committed => c,
        Stage::Failed(_) => c,
    }
}

/// Whether every shard has prepared its writes.
pub open spec fn all_prepared(c: Commit) -> bool {
    c.locals.len() == c.local_shards.len() && c.remotes.len() == c.remote_shards.len()
}

/// Whether the decision to commit has been recorded, or has not to be.
pub open spec fn is_decided(c: Commit) -> bool {
    c.stage is CommitLocal || c.stage is CommitRemote || c.stage is Clear || c.stage is Committed
}

/// What holds of a commit at all times: shards prepare in order, this server's before the
/// others, and commit only when all have prepared.
pub open spec fn sound(c: Commit) -> bool {
    &&& c.locals.len() <= c.local_shards.len()
    &&& c.remotes.len() <= c.remote_shards.len()
    &&& c.stage is PrepareLocal ==> c.locals.len() < c.local_shards.len() && c.remotes.len() == 0
    &&& c.stage is PrepareRemote ==> c.locals.len() == c.local_shards.len() && c.remotes.len()
        < c.remote_shards.len()
    &&& c.stage is RecordCommit ==> all_prepared(c)
    &&& is_decided(c) ==> all_prepared(c)
    &&& c.stage is CommitLocal ==> c.stage->CommitLocal_0 < c.locals.len()
    &&& c.stage is CommitRemote ==> c.stage->CommitRemote_0 < c.remotes.len()
    &&& c.remotes.len() > 0 ==> c.locals.len() == c.local_shards.len()
    &&& forall|i: int|
        0 <= i < c.locals.len() ==> (#[trigger] c.locals[i]).shard_id == c.local_shards[i]
    &&& forall|i: int|
        0 <= i < c.remotes.len() ==> (#[trigger] c.remotes[i]).address == c.remote_shards[i].0
            && c.remotes[i].shard_id == c.remote_shards[i].1
}

impl CommitCoordinator {
    /// A commit at its beginning.
    pub fn new(local_shards: Vec<u64>, remote_shards: Vec<(String, u64)>, single: bool) -> (r: Self)
        ensures
            sound(r@),
            r@ == begun(local_shards@, shard_views(remote_shards@), single),
    {
        let phase = if local_shards.len() > 0 {
            Phase::PrepareLocal
        } else if remote_shards.len() > 0 {
            Phase::PrepareRemote
        } else {
            Phase::Clear
        };
        let r = CommitCoordinator {
            local_shards,
            remote_shards,
            single,
            prepared_locals: Vec::new(),
            prepared_remotes: Vec::new(),
            phase,
        };
        assert(r@.locals =~= Seq::<PreparedLocal>::empty());
        assert(r@.remotes =~= Seq::<PreparedThere>::empty());
        r
    }

    fn after_prepare(&self) -> (r: Phase)
        ensures
            r@ == after_prepare(self@),
    {
        if self.prepared_locals.len() < self.local_shards.len() {
            Phase::PrepareLocal
        } else if self.prepared_remotes.len() < self.remote_shards.len() {
            Phase::PrepareRemote
        } else if self.prepared_locals.len() == 0 && self.prepared_remotes.len() == 0 {
            Phase::Clear
        } else {
            Phase::RecordCommit
        }
    }

    fn after_refusal(&self, e: String) -> (r: Phase)
        ensures
            r@ == after_refusal(self@, e@),
    {
        if self.single || (self.prepared_locals.len() == 0 && self.prepared_remotes.len() == 0) {
            Phase::Failed(e)
        } else {
            Phase::RecordAbort(e)
        }
    }

    fn after_commits(&self, locals: usize, remotes: usize) -> (r: Phase)
        ensures
            r@ == after_commits(self@, locals as nat, remotes as nat),
    {
        if locals < self.prepared_locals.len() {
            Phase::CommitLocal(locals)
        } else if remotes < self.prepared_remotes.len() {
            Phase::CommitRemote(remotes)
        } else {
            Phase::Clear
        }
    }

    fn commit_failure(&self, i: usize, e: String) -> (r: String)
        requires
            i < self.prepared_remotes@.len(),
        ensures
            r@ == commit_failure(self@, self@.remotes[i as int], e@),
    {
        if self.single {
            return e;
        }
        let mut r = "commit prepared transaction ".to_owned();
        r.append(show(self.prepared_remotes[i].prepared_id as u128).as_str());
        r.append(" on ");
        r.append(self.prepared_remotes[i].address.as_str());
        r.append(" failed: ");
        r.append(e.as_str());
        r
    }

    /// Takes in what came of the next thing to do.
    pub fn step(&mut self, outcome: Outcome)
        requires
            sound(old(self)@),
        ensures
            sound(final(self)@),
            final(self)@ == next(old(self)@, outcome@),
    {
        let ghost was = self@;
        proof {
            commits_follow_every_prepare(was, outcome@);
        }
        match &self.phase {
            Phase::PrepareLocal => match outcome {
                Outcome::Prepared(prepared_id) => {
                    let i: usize = self.prepared_locals.len();
                    self.prepared_locals.push(
                        PreparedLocal { shard_id: self.local_shards[i], prepared_id },
                    );
                    self.phase = self.after_prepare();
                },
                o => {
                    self.phase = self.after_refusal(outcome_reason(o));
                },
            },
            Phase::PrepareRemote => match outcome {
                Outcome::Prepared(prepared_id) => {
                    let i: usize = self.prepared_remotes.len();
                    let ghost before = self.prepared_remotes@;
                    let p = PreparedRemote {
                        address: self.remote_shards[i].0.as_str().to_owned(),
                        shard_id: self.remote_shards[i].1,
                        prepared_id,
                    };
                    self.prepared_remotes.push(p);
                    assert(there(self.prepared_remotes@) =~= there(before).push(p@));
                    self.phase = self.after_prepare();
                },
                Outcome::Unreachable(e) => {
                    self.phase = Phase::Failed(e);
                },
                o => {
                    self.phase = self.after_refusal(outcome_reason(o));
                },
            },
            Phase::RecordCommit => match outcome {
                Outcome::Done => {
                    self.phase = self.after_commits(0, 0);
                },
                o => {
                    self.phase = Phase::Failed(outcome_reason(o));
                },
            },
            Phase::CommitLocal(i) => {
                let i: usize = *i;
                assert(was.stage == Stage::CommitLocal(i as nat));
                assert(i < self.prepared_locals.len());
                match outcome {
                    Outcome::Done => {
                        self.phase = self.after_commits(i + 1, 0);
                    },
                    o => {
                        self.phase = Phase::Failed(outcome_reason(o));
                    },
                }
            },
            Phase::CommitRemote(i) => {
                let i: usize = *i;
                assert(was.stage == Stage::CommitRemote(i as nat));
                assert(i < self.prepared_remotes.len());
                match outcome {
                    Outcome::Done => {
                        let n: usize = self.prepared_locals.len();
                        self.phase = self.after_commits(n, i + 1);
                    },
                    o => {
                        self.phase = Phase::Failed(self.commit_failure(i, outcome_reason(o)));
                    },
                }
            },
            Phase::Clear => {
                self.phase = Phase::Committed;
            },
            Phase::RecordAbort(e) => {
                let e = e.as_str().to_owned();
                match outcome {
                    Outcome::Done => {
                        self.phase = Phase::GiveUp(e);
                    },
                    o => {
                        self.phase = Phase::Failed(outcome_reason(o));
                    },
                }
            },
            Phase::GiveUp(e) => {
                let e = e.as_str().to_owned();
                self.phase = Phase::Failed(e);
            },
            Phase::Committed => {},
            Phase::Failed(_) => {},
        }
    }

    /// Those that are recorded with a decision: all that have prepared their writes.
    pub fn participants(&self) -> (r: Vec<TransactionParticipantRecord>)
        ensures
            participant_views(r@) == records(self@.locals, self@.remotes),
    {
        decision_participant_records(
            self.prepared_locals.as_slice(),
            self.prepared_remotes.as_slice(),
        )
    }
}

fn outcome_reason(o: Outcome) -> (r: String)
    ensures
        r@ == reason(o@),
{
    match o {
        Outcome::Refused(e) => e,
        Outcome::Unreachable(e) => e,
        _ => {
            let r = String::new();
            assert(r@ =~= Seq::<char>::empty());
            r
        },
    }
}

/// A commit at its beginning.
pub open spec fn begun(
    local_shards: Seq<u64>,
    remote_shards: Seq<(Seq<char>, u64)>,
    single: bool,
) -> Commit {
    let c = Commit {
        local_shards,
        remote_shards,
        single,
        locals: Seq::empty(),
        remotes: Seq::empty(),
        stage: Stage::Committed,
    };
    Commit { stage: after_prepare(c), ..c }
}

/// A commit stays sound, whatever comes of the next thing to do: in particular no shard
/// commits before every shard has prepared its writes.
pub proof fn commits_follow_every_prepare(c: Commit, o: Came)
    requires
        sound(c),
    ensures
        sound(next(c, o)),
        is_decided(next(c, o)) ==> all_prepared(next(c, o)) && (is_decided(c) || (c.stage
            is RecordCommit && o is Done)),
{
}

/// A commit after several things have been done.
pub open spec fn run(c: Commit, outcomes: Seq<Came>) -> Commit
    decreases outcomes.len(),
{
    if outcomes.len() == 0 {
        c
    } else {
        next(run(c, outcomes.drop_last()), outcomes.last())
    }
}

/// Once the decision to commit is recorded, nothing that was prepared is given up.
pub proof fn decided_commits_are_never_given_up(c: Commit, outcomes: Seq<Came>)
    requires
        is_decided(c) || (c.stage is Failed),
    ensures
        !(run(c, outcomes).stage is RecordAbort),
        !(run(c, outcomes).stage is GiveUp),
        is_decided(run(c, outcomes)) || run(c, outcomes).stage is Failed,
    decreases outcomes.len(),
{
    if outcomes.len() > 0 {
        decided_commits_are_never_given_up(c, outcomes.drop_last());
    }
}

/// A commit that was carried out was carried out on every shard: from its beginning on, all
/// of them prepared, the decision was recorded, and each of them committed.
pub proof fn carried_out_commits_are_complete(
    local_shards: Seq<u64>,
    remote_shards: Seq<(Seq<char>, u64)>,
    single: bool,
    outcomes: Seq<Came>,
)
    ensures
        sound(run(begun(local_shards, remote_shards, single), outcomes)),
        ({
            let c = run(begun(local_shards, remote_shards, single), outcomes);
            is_decided(c) ==> c.locals.len() == local_shards.len() && c.remotes.len()
                == remote_shards.len()
        }),
    decreases outcomes.len(),
{
    let c = begun(local_shards, remote_shards, single);
    lemma_run_keeps_shards(c, outcomes);
    if outcomes.len() > 0 {
        carried_out_commits_are_complete(
            local_shards,
            remote_shards,
            single,
            outcomes.drop_last(),
        );
        commits_follow_every_prepare(run(c, outcomes.drop_last()), outcomes.last());
    }
}

proof fn lemma_run_keeps_shards(c: Commit, outcomes: Seq<Came>)
    ensures
        run(c, outcomes).local_shards == c.local_shards,
        run(c, outcomes).remote_shards == c.remote_shards,
        run(c, outcomes).single == c.single,
    decreases outcomes.len(),
{
    if outcomes.len() > 0 {
        lemma_run_keeps_shards(c, outcomes.drop_last());
    }
}

/// A shard that refuses to prepare its writes, when others have prepared theirs, has everything
/// given up that was prepared, once that is recorded, and the reason is told.
pub proof fn refused_prepares_give_everything_up(c: Commit, e: Seq<char>)
    requires
        !c.single,
        !nothing_prepared(c),
        c.stage is PrepareLocal || c.stage is PrepareRemote,
    ensures
        run(c, seq![Came::Refused(e)]).stage == Stage::RecordAbort(e),
        run(c, seq![Came::Refused(e), Came::Done]).stage == Stage::GiveUp(e),
        run(c, seq![Came::Refused(e), Came::Done, Came::Done]).stage == Stage::Failed(e),
        run(c, seq![Came::Refused(e), Came::Done]).locals == c.locals,
        run(c, seq![Came::Refused(e), Came::Done]).remotes == c.remotes,
{
    let one = seq![Came::Refused(e)];
    let two = seq![Came::Refused(e), Came::Done];
    let three = seq![Came::Refused(e), Came::Done, Came::Done];
    assert(one.drop_last() =~= Seq::<Came>::empty());
    assert(two.drop_last() =~= one);
    assert(three.drop_last() =~= two);
    assert(run(c, one.drop_last()) == c);
    assert(run(c, one) == next(c, Came::Refused(e)));
    assert(run(c, two) == next(run(c, one), Came::Done));
    assert(run(c, three) == next(run(c, two), Came::Done));
}

/// A decision is recorded only of shards that have prepared their writes, so that none is
/// recorded with nobody in it, and a commit that the first shard refuses ends with its reason.
pub proof fn recorded_decisions_name_somebody(
    local_shards: Seq<u64>,
    remote_shards: Seq<(Seq<char>, u64)>,
    single: bool,
    outcomes: Seq<Came>,
    e: Seq<char>,
)
    ensures
        ({
            let c = run(begun(local_shards, remote_shards, single), outcomes);
            &&& c.stage is RecordCommit || c.stage is RecordAbort ==> records(
                c.locals,
                c.remotes,
            ).len() > 0
            &&& (c.stage is PrepareLocal || c.stage is PrepareRemote) && nothing_prepared(c)
                ==> next(c, Came::Refused(e)).stage == Stage::Failed(e)
        }),
    decreases outcomes.len(),
{
    if outcomes.len() > 0 {
        recorded_decisions_name_somebody(
            local_shards,
            remote_shards,
            single,
            outcomes.drop_last(),
            e,
        );
    }
}

/// What a server is told to commit writes that it has prepared.
pub open spec fn commit_request(prepared_id: u64) -> Seq<char> {
    "TX_COMMIT_PREPARED\t"@ + dec(prepared_id as nat)
}

/// Tells a server to commit writes that it has prepared.
pub fn format_commit_prepared(prepared_id: u64) -> (r: String)
    ensures
        r@ == commit_request(prepared_id),
{
    cat("TX_COMMIT_PREPARED\t", show(prepared_id as u128).as_str())
}

/// What a server is told to give up writes that it has prepared.
pub open spec fn abort_request(prepared_id: u64) -> Seq<char> {
    "TX_ABORT_PREPARED\t"@ + dec(prepared_id as nat)
}

/// Tells a server to give up writes that it has prepared.
pub fn format_abort_prepared(prepared_id: u64) -> (r: String)
    ensures
        r@ == abort_request(prepared_id),
{
    cat("TX_ABORT_PREPARED\t", show(prepared_id as u128).as_str())
}

/// What is done for a participant when a decision is carried out late.
pub enum ParticipantAction {
    CommitHere(u64),
    AbortHere(u64),
    Request { address: String, payload: String },
}

/// The contents of what is done for a participant.
pub enum Act {
    CommitHere(u64),
    AbortHere(u64),
    Request { address: Seq<char>, payload: Seq<char> },
}

impl ParticipantAction {
    pub open spec fn view(&self) -> Act {
        match *self {
            ParticipantAction::CommitHere(n) => Act::CommitHere(n),
            ParticipantAction::AbortHere(n) => Act::AbortHere(n),
            ParticipantAction::Request { address, payload } => Act::Request {
                address: address@,
                payload: payload@,
            },
        }
    }
}

/// What is done for a participant when a decision is carried out late, or why it cannot be.
pub open spec fn late_action(decision: TransactionDecision, p: Participant) -> Result<
    Act,
    Seq<char>,
> {
    if p.location == "local"@ {
        Ok(
            match decision {
                TransactionDecision::Commit => Act::CommitHere(p.prepared_id),
                TransactionDecision::Abort => Act::AbortHere(p.prepared_id),
            },
        )
    } else if begins(p.location, "remote:"@) {
        Ok(
            Act::Request {
                address: p.location.skip("remote:"@.len() as int),
                payload: match decision {
                    TransactionDecision::Commit => commit_request(p.prepared_id),
                    TransactionDecision::Abort => abort_request(p.prepared_id),
                },
            },
        )
    } else {
        Err("unknown transaction participant location: "@ + p.location)
    }
}

/// Decides what is done for a participant when a decision is carried out late.
pub fn apply_to_participant(
    decision: TransactionDecision,
    participant: &TransactionParticipantRecord,
) -> (r: Result<ParticipantAction, String>)
    ensures
        match r {
            Ok(a) => late_action(decision, participant@) == Ok::<Act, Seq<char>>(a@),
            Err(e) => late_action(decision, participant@) == Err::<Act, Seq<char>>(e@),
        },
{
    if same(participant.location.as_str(), "local") {
        return Ok(
            match decision {
                TransactionDecision::Commit => ParticipantAction::CommitHere(
                    participant.prepared_id,
                ),
                TransactionDecision::Abort => ParticipantAction::AbortHere(participant.prepared_id),
            },
        );
    }
    match strip_prefix(participant.location.as_str(), "remote:") {
        Some(address) => Ok(
            ParticipantAction::Request {
                address,
                payload: match decision {
                    TransactionDecision::Commit => format_commit_prepared(participant.prepared_id),
                    TransactionDecision::Abort => format_abort_prepared(participant.prepared_id),
                },
            },
        ),
        None => Err(
            cat(
                "unknown transaction participant location: ",
                participant.location.as_str(),
            ),
        ),
    }
}

/// What came of carrying a decision out for a participant. Writes that are not prepared any
/// more have been dealt with before.
pub open spec fn late_outcome(act: Act, came: Result<(), Seq<char>>) -> Result<(), Seq<char>> {
    match (act, came) {
        (Act::AbortHere(_), _) => Ok(()),
        (_, Ok(_)) => Ok(()),
        (_, Err(e)) => if holds(e, "unknown prepared transaction"@) {
            Ok(())
        } else {
            Err(e)
        },
    }
}

/// Judges what came of carrying a decision out for a participant. For writes of this server
/// that are committed the argument is what came of taking them out; what came of carrying them
/// out is told as it is.
pub fn participant_outcome(action: &ParticipantAction, came: Result<(), String>) -> (r: Result<
    (),
    String,
>)
    ensures
        crate::cypher::verdict_text(r) == late_outcome(action@, crate::cypher::verdict_text(came)),
{
    if let ParticipantAction::AbortHere(_) = action {
        return Ok(());
    }
    match came {
        Ok(_) => Ok(()),
        Err(e) => if contains(e.as_str(), "unknown prepared transaction") {
            Ok(())
        } else {
            Err(e)
        },
    }
}

/// A participant that was recorded is reached again where it was: on this server, or at its
/// address.
pub proof fn recorded_participants_are_reached(p: PreparedThere, l: PreparedLocal)
    ensures
        late_action(TransactionDecision::Commit, local_record(l)) == Ok::<Act, Seq<char>>(
            Act::CommitHere(l.prepared_id),
        ),
        late_action(TransactionDecision::Abort, local_record(l)) == Ok::<Act, Seq<char>>(
            Act::AbortHere(l.prepared_id),
        ),
        late_action(TransactionDecision::Commit, remote_record(p)) == Ok::<Act, Seq<char>>(
            Act::Request { address: p.address, payload: commit_request(p.prepared_id) },
        ),
        late_action(TransactionDecision::Abort, remote_record(p)) == Ok::<Act, Seq<char>>(
            Act::Request { address: p.address, payload: abort_request(p.prepared_id) },
        ),
{
    reveal_strlit("local");
    reveal_strlit("remote:");
    let location = "remote:"@ + p.address;
    assert("local"@.len() == 5 && "local"@[0] == 'l');
    assert("remote:"@.len() == 7 && "remote:"@[0] == 'r');
    assert(location[0] == 'r');
    assert(location.take(7) =~= "remote:"@);
    assert(location.skip(7) =~= p.address);
}

/// How many of the outcomes stand before the first that is an error.
pub open spec fn done_before_error(outcomes: Seq<Result<(), String>>) -> nat
    decreases outcomes.len(),
{
    if outcomes.len() == 0 {
        0
    } else if outcomes[0] is Err {
        0
    } else {
        1 + done_before_error(outcomes.skip(1))
    }
}

/// What a recovery comes to: the transactions whose decisions have been carried out, which
/// are struck off, and how many there were or why it ended.
pub struct Recovery {
    pub completed: Vec<u64>,
    pub result: Result<usize, String>,
}

/// Judges a recovery. The outcomes are what came of the decisions in order, up to the first
/// that could not be carried out.
pub fn recover_transaction_decisions(
    decisions: &[TransactionDecisionRecord],
    outcomes: &[Result<(), String>],
) -> (r: Recovery)
    requires
        outcomes@.len() <= decisions@.len(),
        done_before_error(outcomes@) < outcomes@.len() || outcomes@.len() == decisions@.len(),
    ensures
        r.completed@ == decisions@.take(done_before_error(outcomes@) as int).map_values(
            |d: TransactionDecisionRecord| d.tx_id,
        ),
        if done_before_error(outcomes@) < outcomes@.len() {
            r.result is Err && outcomes@[done_before_error(outcomes@) as int] is Err
                && r.result->Err_0@ == outcomes@[done_before_error(outcomes@) as int]->Err_0@
        } else {
            r.result == Ok::<usize, String>(decisions@.len() as usize)
        },
{
    let mut completed: Vec<u64> = Vec::new();
    let mut i: usize = 0;
    assert(outcomes@.skip(0) =~= outcomes@);
    assert(completed@ =~= decisions@.take(0).map_values(|d: TransactionDecisionRecord| d.tx_id));
    while i < outcomes.len()
        invariant
            0 <= i <= outcomes@.len() <= decisions@.len(),
            done_before_error(outcomes@) == i + done_before_error(outcomes@.skip(i as int)),
            completed@ == decisions@.take(i as int).map_values(
                |d: TransactionDecisionRecord| d.tx_id,
            ),
        decreases outcomes@.len() - i,
    {
        assert(outcomes@.skip(i as int)[0] == outcomes@[i as int]);
        assert(outcomes@.skip(i as int).skip(1) =~= outcomes@.skip(i + 1));
        match &outcomes[i] {
            Err(e) => {
                return Recovery { completed, result: Err(e.as_str().to_owned()) };
            },
            Ok(_) => {},
        }
        let ghost before = completed@;
        completed.push(decisions[i].tx_id);
        assert(completed@ =~= decisions@.take(i + 1).map_values(
            |d: TransactionDecisionRecord| d.tx_id,
        ));
        i = i + 1;
    }
    assert(outcomes@.skip(i as int).len() == 0);
    Recovery { completed, result: Ok(decisions.len()) }
}

/// How a decision is named.
pub open spec fn decision_text(d: TransactionDecision) -> Seq<char> {
    match d {
        TransactionDecision::Commit => "commit"@,
        TransactionDecision::Abort => "abort"@,
    }
}

/// Names a decision.
pub fn format_transaction_decision(decision: TransactionDecision) -> (r: &'static str)
    ensures
        r@ == decision_text(decision),
{
    match decision {
        TransactionDecision::Commit => "commit",
        TransactionDecision::Abort => "abort",
    }
}

/// Participants in a list.
pub open spec fn participant_texts(s: Seq<Participant>) -> Seq<Seq<char>> {
    s.map_values(
        |p: Participant|
            p.location + "@"@ + dec(p.shard_id as nat) + "#"@ + dec(p.prepared_id as nat),
    )
}

/// Decisions in a list.
pub open spec fn decision_texts(s: Seq<Decision>) -> Seq<Seq<char>> {
    s.map_values(
        |d: Decision|
            "tx="@ + dec(d.tx_id as nat) + " decision="@ + decision_text(d.decision)
                + " participants="@ + join(participant_texts(d.participants), "|"@),
    )
}

fn show_participants(participants: &[TransactionParticipantRecord]) -> (parts: Vec<String>)
    ensures
        views(parts@) == participant_texts(participant_views(participants@)),
{
    let mut parts: Vec<String> = Vec::new();
    let mut i: usize = 0;
    let ghost all = participant_texts(participant_views(participants@));
    assert(views(parts@) =~= all.take(0));
    while i < participants.len()
        invariant
            0 <= i <= participants@.len(),
            all == participant_texts(participant_views(participants@)),
            views(parts@) == all.take(i as int),
        decreases participants@.len() - i,
    {
        let mut part = participants[i].location.as_str().to_owned();
        part.append("@");
        part.append(show(participants[i].shard_id as u128).as_str());
        part.append("#");
        part.append(show(participants[i].prepared_id as u128).as_str());
        assert(all[i as int] == part@);
        proof {
            lemma_views_push(parts@, part);
        }
        parts.push(part);
        assert(all.take(i + 1) =~= all.take(i as int).push(part@));
        i = i + 1;
    }
    assert(all.take(all.len() as int) =~= all);
    parts
}

/// Writes the decisions that have not been struck off.
pub fn format_transaction_decisions(decisions: &[TransactionDecisionRecord]) -> (r: String)
    ensures
        r@ == "count="@ + dec(decisions@.len()) + " entries="@ + join(
            decision_texts(decision_views(decisions@)),
            ","@,
        ),
{
    let mut parts: Vec<String> = Vec::new();
    let mut i: usize = 0;
    let ghost all = decision_texts(decision_views(decisions@));
    assert(views(parts@) =~= all.take(0));
    while i < decisions.len()
        invariant
            0 <= i <= decisions@.len(),
            all == decision_texts(decision_views(decisions@)),
            views(parts@) == all.take(i as int),
        decreases decisions@.len() - i,
    {
        let mut part = "tx=".to_owned();
        part.append(show(decisions[i].tx_id as u128).as_str());
        part.append(" decision=");
        part.append(format_transaction_decision(decisions[i].decision));
        part.append(" participants=");
        part.append(
            join_with(
                show_participants(decisions[i].participants.as_slice()).as_slice(),
                "|",
            ).as_str(),
        );
        assert(all[i as int] == part@);
        proof {
            lemma_views_push(parts@, part);
        }
        parts.push(part);
        assert(all.take(i + 1) =~= all.take(i as int).push(part@));
        i = i + 1;
    }
    assert(all.take(all.len() as int) =~= all);
    let mut r = "count=".to_owned();
    r.append(show(decisions.len() as u128).as_str());
    r.append(" entries=");
    r.append(join_with(parts.as_slice(), ",").as_str());
    r
}

} // verus!
