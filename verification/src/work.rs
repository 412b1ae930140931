//! Work orders: what the pool hands to miners, how it checks what comes back,
//! and when a work order is out of date.
use vstd::prelude::*;
use crate::pow::{below_target, blake3_digest, block_hash, block_header, compare_hash_with_target, nonce_meets};
use crate::text::{hex_encode, hex_lower};

verus! {

/// A unit of mining work, as pushed to miners.
#[derive(Debug)]
pub struct WorkOrder {
    pub work_id: String,
    pub parent_hash: Vec<u8>,
    pub merkle_root: Vec<u8>,
    pub timestamp: u64,
    pub difficulty_target: Vec<u8>,
}

/// A miner's answer to a work order.
#[derive(Debug)]
pub struct WorkResult {
    pub work_id: String,
    pub nonce: Vec<u8>,
    pub miner_id: String,
}

/// A miner's heartbeat: who it is and how many threads it mines with.
#[derive(Debug)]
pub struct MinerStatus {
    pub miner_id: String,
    pub threads: u32,
}

/// The pool's reply to a submitted result.
#[derive(Debug)]
pub struct SubmitAck {
    pub success: bool,
}

/// The pool's record of the work order it last handed out.
#[derive(Debug)]
pub struct WorkOrderContext {
    pub work_id: String,
    pub parent_hash: Vec<u8>,
    pub merkle_root: Vec<u8>,
    pub timestamp: u64,
    pub difficulty_target: Vec<u8>,
}

/// What the chain gives a work order: parent hash, merkle root and difficulty target.
#[derive(Debug)]
pub struct ChainState {
    pub parent_hash: Vec<u8>,
    pub merkle_root: Vec<u8>,
    pub difficulty_target: Vec<u8>,
}

/// The instruction wires the pool pokes its node on.
#[derive(Clone, Copy, Debug, PartialEq, Eq, Structural)]
pub enum MiningWire {
    SetPubKey,
    Enable,
}

impl MiningWire {
    /// The wire's tag.
    pub fn verb(&self) -> (s: &'static str)
        ensures
            s@ == match self {
                MiningWire::SetPubKey => "setpubkey"@,
                MiningWire::Enable => "enable"@,
            },
    {
        match self {
            MiningWire::SetPubKey => "setpubkey",
            MiningWire::Enable => "enable",
        }
    }
}

/// `n` zero bytes.
pub open spec fn zeros(n: nat) -> Seq<u8> {
    Seq::new(n, |i: int| 0u8)
}

/// The difficulty target work orders carry when the chain state is unavailable:
/// a zero byte, 0x80, then thirty 0xFF bytes.
pub open spec fn default_difficulty_target() -> Seq<u8> {
    Seq::new(32, |i: int| if i == 0 { 0u8 } else if i == 1 { 0x80u8 } else { 0xFFu8 })
}

/// A vector of `n` copies of `b`.
pub fn filled(b: u8, n: usize) -> (v: Vec<u8>)
    ensures
        v@ == Seq::new(n as nat, |i: int| b),
{
    let mut v: Vec<u8> = Vec::new();
    let mut i: usize = 0;
    while i < n
        invariant
            i <= n,
            v@ == Seq::new(i as nat, |k: int| b),
        decreases n - i,
    {
        v.push(b);
        i = i + 1;
        assert(v@ =~= Seq::new(i as nat, |k: int| b));
    }
    v
}

/// The default difficulty target.
pub fn default_target() -> (t: Vec<u8>)
    ensures
        t@ == default_difficulty_target(),
{
    let mut t = filled(0xFF, 32);
    t.set(0, 0x00);
    t.set(1, 0x80);
    assert(t@ =~= default_difficulty_target());
    t
}

impl ChainState {
    /// Work with no chain behind it: zero parent hash and merkle root, default target.
    pub fn fallback_defaults() -> (c: ChainState)
        ensures
            c.parent_hash@ == zeros(32),
            c.merkle_root@ == zeros(32),
            c.difficulty_target@ == default_difficulty_target(),
    {
        let parent_hash = filled(0, 32);
        let merkle_root = filled(0, 32);
        assert(parent_hash@ =~= zeros(32));
        assert(merkle_root@ =~= zeros(32));
        ChainState { parent_hash, merkle_root, difficulty_target: default_target() }
    }
}

/// A lower-case hexadecimal digit.
pub open spec fn is_lower_hex_digit(c: char) -> bool {
    ('0' <= c && c <= '9') || ('a' <= c && c <= 'f')
}

/// The text of a random (version 4) UUID in hyphenated lower-case form: 36
/// characters, hyphens at positions 8, 13, 18 and 23, lower-case hexadecimal
/// digits elsewhere, the version digit `4` at position 14 and one of `8`, `9`,
/// `a`, `b` (the RFC variant) at position 19.
pub open spec fn uuid_v4_text(s: Seq<char>) -> bool {
    &&& s.len() == 36
    &&& forall|i: int| 0 <= i < 36 ==> if i == 8 || i == 13 || i == 18 || i == 23 {
        #[trigger] s[i] == '-'
    } else {
        is_lower_hex_digit(s[i])
    }
    &&& s[14] == '4'
    &&& (s[19] == '8' || s[19] == '9' || s[19] == 'a' || s[19] == 'b')
}

/// A fresh random work id (`Uuid::new_v4().to_string()`): the hyphenated
/// lower-case text of a version-4 UUID. Which one is not stated: it is random.
#[verifier::external_body]
fn random_work_id() -> (id: String)
    ensures
        uuid_v4_text(id@),
{
    uuid::Uuid::new_v4().to_string()
}

/// The current UNIX time in seconds (`chrono::Utc::now().timestamp()`, as `u64`).
/// Nothing is stated: it is the clock.
#[verifier::external_body]
pub(crate) fn unix_now() -> u64 {
    chrono::Utc::now().timestamp() as u64
}

/// Assembles a work order from an id, a timestamp and the chain state, or the
/// fallback defaults when the chain state could not be had.
pub fn assemble_work_order(work_id: String, timestamp: u64, chain: Option<ChainState>) -> (w: WorkOrder)
    ensures
        w.work_id@ == work_id@,
        w.timestamp == timestamp,
        match chain {
            Some(c) => w.parent_hash@ == c.parent_hash@ && w.merkle_root@ == c.merkle_root@
                && w.difficulty_target@ == c.difficulty_target@,
            None => w.parent_hash@ == zeros(32) && w.merkle_root@ == zeros(32)
                && w.difficulty_target@ == default_difficulty_target(),
        },
{
    let c = match chain {
        Some(c) => c,
        None => ChainState::fallback_defaults(),
    };
    WorkOrder {
        work_id,
        parent_hash: c.parent_hash,
        merkle_root: c.merkle_root,
        timestamp,
        difficulty_target: c.difficulty_target,
    }
}

/// A new work order on the given chain state (or the defaults), with a random id
/// and the current time.
pub fn generate_work(chain: Option<ChainState>) -> (w: WorkOrder)
    ensures
        uuid_v4_text(w.work_id@),
        match chain {
            Some(c) => w.parent_hash@ == c.parent_hash@ && w.merkle_root@ == c.merkle_root@
                && w.difficulty_target@ == c.difficulty_target@,
            None => w.parent_hash@ == zeros(32) && w.merkle_root@ == zeros(32)
                && w.difficulty_target@ == default_difficulty_target(),
        },
{
    let work_id = random_work_id();
    let timestamp = unix_now();
    assemble_work_order(work_id, timestamp, chain)
}

impl WorkOrderContext {
    /// The record of a work order being handed out.
    pub fn from_order(work: &WorkOrder) -> (c: WorkOrderContext)
        ensures
            c.work_id@ == work.work_id@,
            c.parent_hash@ == work.parent_hash@,
            c.merkle_root@ == work.merkle_root@,
            c.timestamp == work.timestamp,
            c.difficulty_target@ == work.difficulty_target@,
    {
        WorkOrderContext {
            work_id: work.work_id.clone(),
            parent_hash: work.parent_hash.clone(),
            merkle_root: work.merkle_root.clone(),
            timestamp: work.timestamp,
            difficulty_target: work.difficulty_target.clone(),
        }
    }

    /// The work order this record stands for.
    pub fn to_order(&self) -> (w: WorkOrder)
        ensures
            w.work_id@ == self.work_id@,
            w.parent_hash@ == self.parent_hash@,
            w.merkle_root@ == self.merkle_root@,
            w.timestamp == self.timestamp,
            w.difficulty_target@ == self.difficulty_target@,
    {
        WorkOrder {
            work_id: self.work_id.clone(),
            parent_hash: self.parent_hash.clone(),
            merkle_root: self.merkle_root.clone(),
            timestamp: self.timestamp,
            difficulty_target: self.difficulty_target.clone(),
        }
    }

    /// The difficulty target in lower-case hex, as the status monitor shows it.
    pub fn difficulty_hex(&self) -> (s: String)
        ensures
            s@ == hex_lower(self.difficulty_target@),
    {
        hex_encode(self.difficulty_target.as_slice())
    }
}

/// Whether a submitted result solves the current work order: there is a current
/// order, the ids match, and the hash of the block header is below the target.
pub open spec fn work_valid(current: Option<&WorkOrderContext>, result: &WorkResult) -> bool {
    match current {
        None => false,
        Some(w) => w.work_id@ == result.work_id@ && below_target(
            blake3_digest(block_header(w.parent_hash@, w.merkle_root@, w.timestamp, result.nonce@)),
            w.difficulty_target@,
        ),
    }
}

/// Checks a submitted result against the current work order.
pub fn validate_work(current: Option<&WorkOrderContext>, result: &WorkResult) -> (valid: bool)
    ensures
        valid == work_valid(current, result),
{
    match current {
        None => false,
        Some(work) => {
            if work.work_id != result.work_id {
                return false;
            }
            let hash = block_hash(
                work.parent_hash.as_slice(),
                work.merkle_root.as_slice(),
                work.timestamp,
                result.nonce.as_slice(),
            );
            compare_hash_with_target(hash.as_slice(), work.difficulty_target.as_slice())
        },
    }
}

/// The reply to a submitted result.
pub fn submit_ack(valid: bool) -> (a: SubmitAck)
    ensures
        a.success == valid,
{
    SubmitAck { success: valid }
}

/// The work a newly subscribed miner is sent at once: the current order, if any.
pub fn work_for_new_miner(current: Option<&WorkOrderContext>) -> (w: Option<WorkOrder>)
    ensures
        current is None <==> w is None,
        w matches Some(o) ==> o.work_id@ == current->0.work_id@ && o.parent_hash@ == current->0.parent_hash@
            && o.merkle_root@ == current->0.merkle_root@ && o.timestamp == current->0.timestamp
            && o.difficulty_target@ == current->0.difficulty_target@,
{
    match current {
        None => None,
        Some(c) => Some(c.to_order()),
    }
}

/// Whether the current work order should be replaced: there is none, the chain
/// state could not be had, the chain's parent hash moved on, or the order is more
/// than thirty seconds old.
pub open spec fn work_outdated(current: Option<&WorkOrderContext>, latest_parent: Option<Seq<u8>>, now: u64) -> bool {
    match current {
        None => true,
        Some(w) => match latest_parent {
            None => true,
            Some(p) => p != w.parent_hash@ || now > w.timestamp + 30,
        },
    }
}

/// Decides whether the current work order is out of date, given the parent hash of
/// the latest chain state (`None` when it could not be had) and the time now.
pub fn is_work_outdated(current: Option<&WorkOrderContext>, latest_parent: Option<&[u8]>, now: u64) -> (r: bool)
    requires
        current matches Some(w) ==> latest_parent matches Some(p) ==> p@ == w.parent_hash@
            ==> w.timestamp + 30 <= u64::MAX,
    ensures
        r == work_outdated(current, match latest_parent { Some(p) => Some(p@), None => None }, now),
{
    match current {
        None => true,
        Some(work) => match latest_parent {
            None => true,
            Some(parent_hash) => {
                if !bytes_eq(parent_hash, work.parent_hash.as_slice()) {
                    return true;
                }
                now > work.timestamp + 30
            },
        },
    }
}

/// Byte-wise equality of two slices.
pub fn bytes_eq(a: &[u8], b: &[u8]) -> (r: bool)
    ensures
        r == (a@ == b@),
{
    if a.len() != b.len() {
        return false;
    }
    let mut i: usize = 0;
    while i < a.len()
        invariant
            a.len() == b.len(),
            i <= a.len(),
            forall|k: int| 0 <= k < i ==> a@[k] == b@[k],
        decreases a.len() - i,
    {
        if a[i] != b[i] {
            return false;
        }
        i = i + 1;
    }
    assert(a@ =~= b@);
    true
}

/// What is poked into the node to submit a block: the current order's parent hash,
/// merkle root and timestamp with the submitted nonce.
#[derive(Debug)]
pub struct BlockSubmission {
    pub parent_hash: Vec<u8>,
    pub merkle_root: Vec<u8>,
    pub timestamp: u64,
    pub nonce: Vec<u8>,
}

/// The block to submit for a result, or `None` when there is no current order.
pub fn block_submission(current: Option<&WorkOrderContext>, result: &WorkResult) -> (s: Option<BlockSubmission>)
    ensures
        current is None <==> s is None,
        s matches Some(b) ==> b.parent_hash@ == current->0.parent_hash@ && b.merkle_root@ == current->0.merkle_root@
            && b.timestamp == current->0.timestamp && b.nonce@ == result.nonce@,
{
    match current {
        None => None,
        Some(w) => Some(BlockSubmission {
            parent_hash: w.parent_hash.clone(),
            merkle_root: w.merkle_root.clone(),
            timestamp: w.timestamp,
            nonce: result.nonce.clone(),
        }),
    }
}

/// What the pool does with a submitted result.
#[derive(Debug)]
pub enum SubmissionStep {
    /// Refuse it: nothing is submitted, the current order stays, nothing is sent.
    Reject,
    /// Submit this block to the node, then make a new work order and hand it out
    /// with [`renew_work`].
    SubmitAndRenew(BlockSubmission),
}

/// The pool's answer to a submitted result, and what it does next: a valid result
/// is acknowledged with success, its block is submitted and the work order is
/// renewed; an invalid one is acknowledged with failure and leaves everything as
/// it was.
pub fn submission_step(current: Option<&WorkOrderContext>, result: &WorkResult) -> (r: (SubmitAck, SubmissionStep))
    ensures
        r.0.success == work_valid(current, result),
        r.1 is Reject <==> !work_valid(current, result),
        r.1 matches SubmissionStep::SubmitAndRenew(b) ==> b.parent_hash@ == current->0.parent_hash@
            && b.merkle_root@ == current->0.merkle_root@ && b.timestamp == current->0.timestamp
            && b.nonce@ == result.nonce@,
{
    let valid = validate_work(current, result);
    if !valid {
        return (submit_ack(false), SubmissionStep::Reject);
    }
    match block_submission(current, result) {
        Some(b) => (submit_ack(true), SubmissionStep::SubmitAndRenew(b)),
        None => {
            proof {
                assert(!work_valid(current, result));
            }
            (submit_ack(false), SubmissionStep::Reject)
        },
    }
}

/// The view of a list of names.
pub open spec fn names_view(v: Seq<String>) -> Seq<Seq<char>> {
    v.map_values(|s: String| s@)
}

/// Hands out a new work order: it becomes the current one, and it is sent to
/// every connected miner (the returned ids, all of `miners`, in order).
pub fn renew_work(current: &mut Option<WorkOrderContext>, work: &WorkOrder, miners: &Vec<String>) -> (recipients: Vec<String>)
    ensures
        *final(current) matches Some(c) && c.work_id@ == work.work_id@ && c.parent_hash@ == work.parent_hash@
            && c.merkle_root@ == work.merkle_root@ && c.timestamp == work.timestamp
            && c.difficulty_target@ == work.difficulty_target@,
        names_view(recipients@) == names_view(miners@),
{
    *current = Some(WorkOrderContext::from_order(work));
    let mut v: Vec<String> = Vec::new();
    let mut i: usize = 0;
    while i < miners.len()
        invariant
            i <= miners@.len(),
            names_view(v@) == names_view(miners@.take(i as int)),
        decreases miners@.len() - i,
    {
        let ghost old_v = v@;
        let m = miners[i].clone();
        v.push(m);
        assert(miners@.take(i + 1) =~= miners@.take(i as int).push(miners@[i as int]));
        assert(names_view(old_v.push(m)) =~= names_view(old_v).push(m@));
        assert(names_view(miners@.take(i as int).push(miners@[i as int])) =~= names_view(miners@.take(i as int)).push(
            miners@[i as int]@,
        ));
        i = i + 1;
    }
    assert(miners@.take(miners@.len() as int) =~= miners@);
    v
}

/// A result is never accepted when there is no current work order, nor when it
/// names another work order than the current one.
pub proof fn stale_or_foreign_results_are_rejected(current: Option<&WorkOrderContext>, result: &WorkResult)
    requires
        current is None || current->0.work_id@ != result.work_id@,
    ensures
        !work_valid(current, result),
{
}

/// A nonce the miner finds for the current work order is one the pool accepts:
/// when the nonce meets the order (as the miner's `nonce_solves` judges it) and
/// the result names the order, the pool's check passes.
pub proof fn found_nonce_is_accepted(w: &WorkOrderContext, r: &WorkResult)
    requires
        r.work_id@ == w.work_id@,
        nonce_meets(w.parent_hash@, w.merkle_root@, w.timestamp, r.nonce@, w.difficulty_target@),
    ensures
        work_valid(Some(w), r),
{
}

/// The error a subscription is refused with when the miner sends no status first.
pub fn missing_miner_status_error() -> (e: crate::error::PoolServerError)
    ensures
        e.kind() == crate::error::ErrorKind::Protocol,
        e.message() == "初始化矿工状态失败 | Failed to initialize miner status"@,
{
    crate::error::PoolServerError::ProtocolError("初始化矿工状态失败 | Failed to initialize miner status".to_string())
}

} // verus!
