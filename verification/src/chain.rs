//! The pool's dialogue with its embedded node: the nouns it peeks and pokes, how
//! it reads the heaviest block and a block's page, and the decisions of chain-state
//! queries, the genesis check and the initial synchronisation. The node is called
//! by the caller, which hands the node's answers to the functions here.
use vstd::prelude::*;
use vstd::string::StringSliceAdditionalSpecFns;
use vstd::utf8::{decode_utf8, valid_utf8};
use crate::error::{classify, kind_recoverable, ErrorKind, PoolServerError};
use crate::pow::{blake3_digest, blake3_hash, le_value, pow256};
use crate::text::{concat2, concat3, contains, contains_seq, hex_decode, hex_decode_spec, hex_encode, hex_lower};
use crate::work::{filled, zeros, ChainState};

verus! {

/// A noun of the node: an atom, given by its bytes (least significant first; for a
/// noun read from the node, the bytes that `to_ne_bytes` gives on a little-endian
/// machine, whole 64-bit words), or a cell.
#[derive(Debug)]
pub enum Noun {
    Atom(Vec<u8>),
    Cell(Box<Noun>, Box<Noun>),
}

/// The mathematical value of a noun.
pub enum NounView {
    Atom(Seq<u8>),
    Cell(Box<NounView>, Box<NounView>),
}

impl View for Noun {
    type V = NounView;

    open spec fn view(&self) -> NounView {
        noun_view(*self)
    }
}

/// The value of a noun.
pub open spec fn noun_view(n: Noun) -> NounView
    decreases n,
{
    match n {
        Noun::Atom(b) => NounView::Atom(b@),
        Noun::Cell(h, t) => NounView::Cell(Box::new(noun_view(*h)), Box::new(noun_view(*t))),
    }
}

impl Noun {
    /// A copy of the noun.
    pub fn copy(&self) -> (r: Noun)
        ensures
            r@ == self@,
        decreases self,
    {
        match self {
            Noun::Atom(b) => Noun::Atom(b.clone()),
            Noun::Cell(h, t) => Noun::Cell(Box::new((**h).copy()), Box::new((**t).copy())),
        }
    }
}

/// The atom of a string's UTF-8 bytes (a cord or a term).
pub fn cord(s: &str) -> (n: Noun)
    ensures
        n@ == NounView::Atom(s.spec_bytes()),
{
    let bytes = s.as_bytes();
    let mut v: Vec<u8> = Vec::new();
    let mut i: usize = 0;
    while i < bytes.len()
        invariant
            i <= bytes@.len(),
            v@ == bytes@.take(i as int),
        decreases bytes@.len() - i,
    {
        v.push(bytes[i]);
        assert(bytes@.take(i + 1) =~= bytes@.take(i as int).push(bytes@[i as int]));
        i = i + 1;
    }
    assert(bytes@.take(bytes@.len() as int) =~= bytes@);
    Noun::Atom(v)
}

/// The atom 0.
pub fn zero_atom() -> (n: Noun)
    ensures
        n@ == NounView::Atom(Seq::empty()),
{
    let v: Vec<u8> = Vec::new();
    Noun::Atom(v)
}

/// The cell of two nouns.
pub fn cell(h: Noun, t: Noun) -> (n: Noun)
    ensures
        n@ == NounView::Cell(Box::new(h@), Box::new(t@)),
{
    Noun::Cell(Box::new(h), Box::new(t))
}

/// The path of a peek for one tag: `[tag ~]`.
pub open spec fn tag_path(tag: Seq<u8>) -> NounView {
    NounView::Cell(Box::new(NounView::Atom(tag)), Box::new(NounView::Atom(Seq::empty())))
}

/// `[%heavy ~]`: the peek for the id of the heaviest block.
pub fn heavy_path() -> (n: Noun)
    ensures
        n@ == tag_path("heavy".spec_bytes()),
{
    cell(cord("heavy"), zero_atom())
}

/// `[%block id ~]`: the peek for a block's page.
pub fn block_path(block_id: &Noun) -> (n: Noun)
    ensures
        n@ == NounView::Cell(Box::new(NounView::Atom("block".spec_bytes())), Box::new(NounView::Cell(
            Box::new(block_id@), Box::new(NounView::Atom(Seq::empty())),
        ))),
{
    cell(cord("block"), cell(block_id.copy(), zero_atom()))
}

/// How a peek of the node ended.
#[derive(Debug)]
pub enum PeekOutcome {
    /// The peek failed (the error's text).
    Failed(String),
    /// The node had nothing at the path.
    Empty,
    /// The node's answer.
    Found(Noun),
}

/// How a poke of the node ended.
#[derive(Clone, Copy, Debug, PartialEq, Eq, Structural)]
pub enum PokeOutcome {
    Ack,
    Nack,
}

/// The block id in the answer to `[%heavy ~]` (a `(unit (unit block-id))`): the
/// head of the tail.
pub open spec fn heavy_block_id(root: NounView) -> Result<NounView, HeavyShape> {
    match root {
        NounView::Atom(_) => Err(HeavyShape::RootNotCell),
        NounView::Cell(_, t) => match *t {
            NounView::Atom(_) => Err(HeavyShape::TailNotCell),
            NounView::Cell(id, _) => Ok(*id),
        },
    }
}

/// Why the answer to `[%heavy ~]` holds no block id.
#[derive(Clone, Copy, Debug, PartialEq, Eq, Structural)]
pub enum HeavyShape {
    RootNotCell,
    TailNotCell,
}

/// The block id in the answer to `[%heavy ~]`.
pub fn heavy_block_id_of(root: &Noun) -> (r: Result<&Noun, HeavyShape>)
    ensures
        r matches Ok(id) ==> heavy_block_id(root@) == Ok::<NounView, HeavyShape>(id@),
        r matches Err(s) ==> heavy_block_id(root@) == Err::<NounView, HeavyShape>(s),
{
    let t: &Noun = match root {
        Noun::Atom(_) => {
            return Err(HeavyShape::RootNotCell);
        },
        Noun::Cell(_, t) => t,
    };
    proof {
        reveal_with_fuel(noun_view, 2);
    }
    match t {
        Noun::Atom(_) => Err(HeavyShape::TailNotCell),
        Noun::Cell(id, _) => Ok(id),
    }
}

/// What `as_u64` gives for an atom: its value when the value fits in 64 bits,
/// which it does when no byte past the eighth is set.
pub open spec fn atom_u64(b: Seq<u8>) -> Option<u64> {
    if forall|i: int| 8 <= i < b.len() ==> b[i] == 0 {
        Some(le_value(b.take(if b.len() < 8 { b.len() as int } else { 8 })) as u64)
    } else {
        None
    }
}

/// The 64-bit value of an atom, if it has one (`as_u64`).
pub fn atom_as_u64(b: &Vec<u8>) -> (r: Option<u64>)
    ensures
        r == atom_u64(b@),
{
    let mut i: usize = 8;
    while i < b.len()
        invariant
            8 <= i,
            forall|k: int| 8 <= k < i ==> b@[k] == 0,
        decreases b.len() - i,
    {
        if b[i] != 0 {
            return None;
        }
        i = i + 1;
    }
    let n: usize = if b.len() < 8 { b.len() } else { 8 };
    let ghost s = b@.take(n as int);
    let mut v: u64 = 0;
    let mut k: usize = n;
    proof {
        assert(pow256(0) == 1);
    }
    while k > 0
        invariant
            k <= n <= 8,
            n <= b.len(),
            s == b@.take(n as int),
            v == le_value(s.subrange(k as int, n as int)),
            v < pow256((n - k) as nat),
        decreases k,
    {
        k = k - 1;
        let ghost rest = s.subrange(k + 1, n as int);
        assert(s.subrange(k as int, n as int).drop_first() =~= rest);
        assert(pow256((n - k) as nat) == 256 * pow256((n - k - 1) as nat));
        assert(pow256(7) == 72057594037927936) by {
            reveal_with_fuel(pow256, 8);
        }
        proof {
            lemma_pow256_monotone((n - k - 1) as nat, 7);
        }
        v = b[k] as u64 + 256 * v;
    }
    assert(s.subrange(0, n as int) =~= s);
    Some(v)
}

proof fn lemma_pow256_monotone(a: nat, b: nat)
    requires
        a <= b,
    ensures
        pow256(a) <= pow256(b),
    decreases b - a,
{
    if a < b {
        lemma_pow256_monotone(a, (b - 1) as nat);
    }
}

/// A change the pool makes to its status monitor, or (for `RefreshNetworkHeight`)
/// the refresh of the network height it runs, in the order given.
#[derive(Debug)]
pub enum StatusUpdate {
    SyncStatus(String),
    BlockHash(String),
    BlockHeight(u64),
    Difficulty(String),
    NetworkHeight(Option<u64>),
    RefreshNetworkHeight,
}

/// The value of a status update.
pub enum UpdateView {
    SyncStatus(Seq<char>),
    BlockHash(Seq<char>),
    BlockHeight(u64),
    Difficulty(Seq<char>),
    NetworkHeight(Option<u64>),
    RefreshNetworkHeight,
}

/// The value of a status update.
pub open spec fn update_view(u: StatusUpdate) -> UpdateView {
    match u {
        StatusUpdate::SyncStatus(s) => UpdateView::SyncStatus(s@),
        StatusUpdate::BlockHash(s) => UpdateView::BlockHash(s@),
        StatusUpdate::BlockHeight(h) => UpdateView::BlockHeight(h),
        StatusUpdate::Difficulty(s) => UpdateView::Difficulty(s@),
        StatusUpdate::NetworkHeight(h) => UpdateView::NetworkHeight(h),
        StatusUpdate::RefreshNetworkHeight => UpdateView::RefreshNetworkHeight,
    }
}

/// The values of a list of status updates.
pub open spec fn updates_view(v: Seq<StatusUpdate>) -> Seq<UpdateView> {
    v.map_values(|u: StatusUpdate| update_view(u))
}

/// A sync-status update.
pub open spec fn sync(s: Seq<char>) -> UpdateView {
    UpdateView::SyncStatus(s)
}

fn set_sync(s: &str) -> (u: StatusUpdate)
    ensures
        update_view(u) == sync(s@),
{
    StatusUpdate::SyncStatus(s.to_string())
}

/// What a chain-state query does next.
#[derive(Debug)]
pub enum ChainAction {
    /// Peek the node at `path` (the page of `block_id`) and hand over the answer.
    PeekBlock { block_id: Noun, path: Noun },
    /// Finish with the fallback chain state (`DIFFICULTY_TARGET`).
    Fallback,
    /// Finish with an error of this message.
    Fail(String),
    /// Finish with this chain state.
    Done(ChainState),
}

/// The value of a chain-state query's next step.
pub enum ChainActionView {
    PeekBlock(NounView, NounView),
    Fallback,
    Fail(Seq<char>),
    Done(Seq<u8>, Seq<u8>, Seq<u8>),
}

/// The value of a chain-state query's next step.
pub open spec fn chain_action_view(a: ChainAction) -> ChainActionView {
    match a {
        ChainAction::PeekBlock { block_id, path } => ChainActionView::PeekBlock(block_id@, path@),
        ChainAction::Fallback => ChainActionView::Fallback,
        ChainAction::Fail(m) => ChainActionView::Fail(m@),
        ChainAction::Done(c) => ChainActionView::Done(c.parent_hash@, c.merkle_root@, c.difficulty_target@),
    }
}

/// The updates made when a chain-state query starts (before it peeks `[%heavy ~]`).
pub fn chain_query_start() -> (u: Vec<StatusUpdate>)
    ensures
        updates_view(u@) == seq![sync("正在获取区块链状态"@)],
{
    let mut u: Vec<StatusUpdate> = Vec::new();
    u.push(set_sync("正在获取区块链状态"));
    assert(updates_view(u@) =~= seq![sync("正在获取区块链状态"@)]);
    u
}

/// The text a block id is shown as: the hex of its bytes, or "未知" when it is no
/// atom or has no bytes.
pub open spec fn block_id_text(id: NounView) -> Seq<char> {
    match id {
        NounView::Atom(b) => if b.len() > 0 { hex_lower(b) } else { "未知"@ },
        NounView::Cell(_, _) => "未知"@,
    }
}

/// The path `[%block id ~]`.
pub open spec fn block_path_view(id: NounView) -> NounView {
    NounView::Cell(Box::new(NounView::Atom("block".spec_bytes())), Box::new(NounView::Cell(
        Box::new(id), Box::new(NounView::Atom(Seq::empty())),
    )))
}

/// After the peek of `[%heavy ~]`: with a block id, show its hash and peek its
/// page; otherwise record why and fall back.
pub open spec fn after_heavy_spec(peek: PeekOutcome) -> (Seq<UpdateView>, ChainActionView) {
    match peek {
        PeekOutcome::Found(root) => match heavy_block_id(root@) {
            Ok(id) => (seq![UpdateView::BlockHash(block_id_text(id))], ChainActionView::PeekBlock(id, block_path_view(id))),
            Err(HeavyShape::RootNotCell) => (seq![sync("同步失败：无法解析区块数据"@)], ChainActionView::Fallback),
            Err(HeavyShape::TailNotCell) => (seq![sync("同步失败：无法获取区块ID"@)], ChainActionView::Fallback),
        },
        _ => (seq![sync("同步失败：无法连接主网"@)], ChainActionView::Fallback),
    }
}

fn block_id_text_of(id: &Noun) -> (s: String)
    ensures
        s@ == block_id_text(id@),
{
    match id {
        Noun::Atom(b) => {
            if b.len() > 0 {
                hex_encode(b.as_slice())
            } else {
                "未知".to_string()
            }
        },
        Noun::Cell(_, _) => "未知".to_string(),
    }
}

/// The chain-state query's step after the peek of `[%heavy ~]`.
pub fn chain_query_after_heavy(peek: PeekOutcome) -> (r: (Vec<StatusUpdate>, ChainAction))
    ensures
        (updates_view(r.0@), chain_action_view(r.1)) == after_heavy_spec(peek),
{
    let mut u: Vec<StatusUpdate> = Vec::new();
    match &peek {
        PeekOutcome::Found(root) => match heavy_block_id_of(root) {
            Ok(id) => {
                u.push(StatusUpdate::BlockHash(block_id_text_of(id)));
                let path = block_path(id);
                assert(updates_view(u@) =~= after_heavy_spec(peek).0);
                (u, ChainAction::PeekBlock { block_id: id.copy(), path })
            },
            Err(HeavyShape::RootNotCell) => {
                u.push(set_sync("同步失败：无法解析区块数据"));
                assert(updates_view(u@) =~= after_heavy_spec(peek).0);
                (u, ChainAction::Fallback)
            },
            Err(HeavyShape::TailNotCell) => {
                u.push(set_sync("同步失败：无法获取区块ID"));
                assert(updates_view(u@) =~= after_heavy_spec(peek).0);
                (u, ChainAction::Fallback)
            },
        },
        _ => {
            u.push(set_sync("同步失败：无法连接主网"));
            assert(updates_view(u@) =~= after_heavy_spec(peek).0);
            (u, ChainAction::Fallback)
        },
    }
}

/// Parent hash bytes brought to 32: zero-padded in front when shorter, cut to the
/// first 32 when longer.
pub open spec fn fit32(p: Seq<u8>) -> Seq<u8> {
    if p.len() < 32 {
        zeros((32 - p.len()) as nat) + p
    } else {
        p.take(32)
    }
}

/// The bytes of the atom 0 as the node gives them: one 64-bit word of zeros.
pub open spec fn zero_atom_bytes() -> Seq<u8> {
    zeros(8)
}

/// The bytes the merkle root is hashed from: the block id's bytes, or those of
/// the atom 0 when the id is no atom.
pub open spec fn merkle_source(id: NounView) -> Seq<u8> {
    match id {
        NounView::Atom(b) => b,
        NounView::Cell(_, _) => zero_atom_bytes(),
    }
}

/// The block height at the head of a page: the head atom's 64-bit value, else 0.
pub open spec fn page_height(h: NounView) -> u64 {
    match h {
        NounView::Atom(b) => match atom_u64(b) {
            Some(v) => v,
            None => 0,
        },
        NounView::Cell(_, _) => 0,
    }
}

/// The parent hash of a page's content: its first atom brought to 32 bytes, else 32 zeros.
pub open spec fn page_parent(rest: NounView) -> Seq<u8> {
    match rest {
        NounView::Cell(a, _) => match *a {
            NounView::Atom(pb) => fit32(pb),
            NounView::Cell(_, _) => zeros(32),
        },
        NounView::Atom(_) => zeros(32),
    }
}

/// The merkle root for a page's content: the BLAKE3 digest of the block id when
/// the content holds a transaction list, else 32 zeros.
pub open spec fn page_merkle(id: NounView, rest: NounView) -> Seq<u8> {
    match rest {
        NounView::Cell(_, txs) => match *txs {
            NounView::Cell(_, _) => blake3_digest(merkle_source(id)),
            NounView::Atom(_) => zeros(32),
        },
        NounView::Atom(_) => zeros(32),
    }
}

/// Reading a block's page `[height target parent ...]`: show the height, refresh
/// the network height, then take the target (shown in hex), the parent hash and
/// the merkle root; a page of another shape falls back after recording why.
pub open spec fn page_spec(id: NounView, root: NounView) -> (Seq<UpdateView>, ChainActionView) {
    match root {
        NounView::Atom(_) => (seq![sync("同步失败：无法解析区块数据"@)], ChainActionView::Fallback),
        NounView::Cell(h, t) => {
            let pre = seq![UpdateView::BlockHeight(page_height(*h)), UpdateView::RefreshNetworkHeight];
            match *t {
                NounView::Atom(_) => (pre.push(sync("同步失败：无法解析区块内容"@)), ChainActionView::Fallback),
                NounView::Cell(target, rest) => match *target {
                    NounView::Cell(_, _) => (pre.push(sync("同步失败：无法获取难度目标"@)), ChainActionView::Fallback),
                    NounView::Atom(tb) => (
                        pre.push(UpdateView::Difficulty("0x"@ + hex_lower(tb))).push(sync("同步成功"@)),
                        ChainActionView::Done(page_parent(*rest), page_merkle(id, *rest), tb),
                    ),
                },
            }
        },
    }
}

/// After the peek of a block's page.
pub open spec fn after_block_spec(id: NounView, peek: PeekOutcome) -> (Seq<UpdateView>, ChainActionView) {
    match peek {
        PeekOutcome::Failed(e) => (Seq::empty(), ChainActionView::Fail("peek block failed: "@ + e@)),
        PeekOutcome::Empty => (seq![sync("同步失败：无法获取区块数据"@)], ChainActionView::Fallback),
        PeekOutcome::Found(root) => page_spec(id, root@),
    }
}

fn copy_bytes(b: &Vec<u8>) -> (v: Vec<u8>)
    ensures
        v@ == b@,
{
    let mut v: Vec<u8> = Vec::new();
    let mut i: usize = 0;
    while i < b.len()
        invariant
            i <= b.len(),
            v@ == b@.take(i as int),
        decreases b.len() - i,
    {
        v.push(b[i]);
        assert(b@.take(i + 1) =~= b@.take(i as int).push(b@[i as int]));
        i = i + 1;
    }
    assert(b@.take(b.len() as int) =~= b@);
    v
}

/// Parent hash bytes brought to 32.
pub fn fit_to_32(p: &Vec<u8>) -> (v: Vec<u8>)
    ensures
        v@ == fit32(p@),
        v@.len() == 32,
        p@.len() >= 32 ==> forall|i: int| 0 <= i < 32 ==> v@[i] == p@[i],
        p@.len() < 32 ==> (forall|i: int| 0 <= i < 32 - p@.len() ==> v@[i] == 0) && (forall|i: int|
            0 <= i < p@.len() ==> v@[32 - p@.len() + i] == p@[i]),
{
    if p.len() < 32 {
        let mut v = filled(0, 32 - p.len());
        let mut i: usize = 0;
        while i < p.len()
            invariant
                p.len() < 32,
                i <= p.len(),
                v@ == zeros((32 - p.len()) as nat) + p@.take(i as int),
            decreases p.len() - i,
        {
            v.push(p[i]);
            assert(p@.take(i + 1) =~= p@.take(i as int).push(p@[i as int]));
            i = i + 1;
        }
        assert(p@.take(p.len() as int) =~= p@);
        assert(v@ =~= fit32(p@));
        v
    } else {
        let mut v: Vec<u8> = Vec::new();
        let mut i: usize = 0;
        while i < 32
            invariant
                p.len() >= 32,
                i <= 32,
                v@ == p@.take(i as int),
            decreases 32 - i,
        {
            v.push(p[i]);
            assert(p@.take(i + 1) =~= p@.take(i as int).push(p@[i as int]));
            i = i + 1;
        }
        v
    }
}

/// A parent hash is brought to 32 bytes by keeping its first 32 bytes when it has
/// at least that many, and otherwise by putting zeros in front of it.
pub proof fn parent_hash_keeps_leading_bytes(p: Seq<u8>)
    ensures
        fit32(p).len() == 32,
        p.len() >= 32 ==> forall|i: int| 0 <= i < 32 ==> fit32(p)[i] == p[i],
        p.len() < 32 ==> (forall|i: int| 0 <= i < 32 - p.len() ==> fit32(p)[i] == 0) && (forall|i: int|
            0 <= i < p.len() ==> fit32(p)[32 - p.len() + i] == p[i]),
{
}

/// The parent hash a finished chain-state query gives comes from the parent atom
/// of the block's page in the same way: its first 32 bytes, or its bytes after
/// leading zeros when it is shorter.
pub proof fn page_parent_keeps_leading_bytes(pb: Seq<u8>, txs: NounView)
    ensures
        ({
            let q = page_parent(NounView::Cell(Box::new(NounView::Atom(pb)), Box::new(txs)));
            &&& q.len() == 32
            &&& pb.len() >= 32 ==> forall|i: int| 0 <= i < 32 ==> q[i] == pb[i]
            &&& pb.len() < 32 ==> (forall|i: int| 0 <= i < 32 - pb.len() ==> q[i] == 0) && (forall|i: int|
                0 <= i < pb.len() ==> q[32 - pb.len() + i] == pb[i])
        }),
{
    parent_hash_keeps_leading_bytes(pb);
}

fn merkle_root_of(id: &Noun, rest: &Noun) -> (m: Vec<u8>)
    ensures
        m@ == page_merkle(id@, rest@),
        m@.len() == 32,
{
    proof {
        reveal_with_fuel(noun_view, 2);
    }
    match rest {
        Noun::Cell(_, txs) => match &**txs {
            Noun::Cell(_, _) => {
                let src = match id {
                    Noun::Atom(b) => copy_bytes(b),
                    Noun::Cell(_, _) => filled(0, 8),
                };
                assert(src@ =~= merkle_source(id@));
                blake3_hash(src.as_slice())
            },
            Noun::Atom(_) => {
                let z = filled(0, 32);
                assert(z@ =~= zeros(32));
                z
            },
        },
        Noun::Atom(_) => {
            let z = filled(0, 32);
            assert(z@ =~= zeros(32));
            z
        },
    }
}

fn parent_hash_of(rest: &Noun) -> (p: Vec<u8>)
    ensures
        p@ == page_parent(rest@),
        p@.len() == 32,
{
    proof {
        reveal_with_fuel(noun_view, 2);
    }
    let z = filled(0, 32);
    assert(z@ =~= zeros(32));
    match rest {
        Noun::Cell(a, _) => match &**a {
            Noun::Atom(pb) => fit_to_32(pb),
            Noun::Cell(_, _) => z,
        },
        Noun::Atom(_) => z,
    }
}

fn page_height_of(h: &Noun) -> (v: u64)
    ensures
        v == page_height(h@),
{
    match h {
        Noun::Atom(b) => match atom_as_u64(b) {
            Some(v) => v,
            None => 0,
        },
        Noun::Cell(_, _) => 0,
    }
}

/// The chain-state query's step after the peek of the block's page.
pub fn chain_query_after_block(block_id: &Noun, peek: PeekOutcome) -> (r: (Vec<StatusUpdate>, ChainAction))
    ensures
        (updates_view(r.0@), chain_action_view(r.1)) == after_block_spec(block_id@, peek),
        r.1 matches ChainAction::Done(c) ==> c.parent_hash@.len() == 32 && c.merkle_root@.len() == 32,
{
    let mut u: Vec<StatusUpdate> = Vec::new();
    proof {
        reveal_with_fuel(noun_view, 3);
    }
    match &peek {
        PeekOutcome::Failed(e) => {
            assert(updates_view(u@) =~= Seq::empty());
            (u, ChainAction::Fail(concat2("peek block failed: ", e.as_str())))
        },
        PeekOutcome::Empty => {
            u.push(set_sync("同步失败：无法获取区块数据"));
            assert(updates_view(u@) =~= after_block_spec(block_id@, peek).0);
            (u, ChainAction::Fallback)
        },
        PeekOutcome::Found(root) => match root {
            Noun::Atom(_) => {
                u.push(set_sync("同步失败：无法解析区块数据"));
                assert(updates_view(u@) =~= after_block_spec(block_id@, peek).0);
                (u, ChainAction::Fallback)
            },
            Noun::Cell(h, t) => {
                u.push(StatusUpdate::BlockHeight(page_height_of(h)));
                u.push(StatusUpdate::RefreshNetworkHeight);
                match &**t {
                    Noun::Atom(_) => {
                        u.push(set_sync("同步失败：无法解析区块内容"));
                        assert(updates_view(u@) =~= after_block_spec(block_id@, peek).0);
                        (u, ChainAction::Fallback)
                    },
                    Noun::Cell(target, rest) => match &**target {
                        Noun::Cell(_, _) => {
                            u.push(set_sync("同步失败：无法获取难度目标"));
                            assert(updates_view(u@) =~= after_block_spec(block_id@, peek).0);
                            (u, ChainAction::Fallback)
                        },
                        Noun::Atom(tb) => {
                            let hex = hex_encode(tb.as_slice());
                            u.push(StatusUpdate::Difficulty(concat2("0x", hex.as_str())));
                            u.push(set_sync("同步成功"));
                            assert(updates_view(u@) =~= after_block_spec(block_id@, peek).0);
                            let state = ChainState {
                                parent_hash: parent_hash_of(rest),
                                merkle_root: merkle_root_of(block_id, rest),
                                difficulty_target: copy_bytes(tb),
                            };
                            (u, ChainAction::Done(state))
                        },
                    },
                }
            },
        },
    }
}

/// The fallback chain state: 32 zero bytes of parent hash and merkle root with the
/// target read from `DIFFICULTY_TARGET` (hex, read by the caller); an error when
/// the variable is unset or not hex.
pub fn fallback_chain_state(difficulty_env: Option<&str>) -> (r: Result<ChainState, String>)
    ensures
        match difficulty_env {
            Some(h) => hex_decode_spec(h@) is Some,
            None => false,
        } ==> (r matches Ok(c) && c.parent_hash@ == zeros(32) && c.merkle_root@ == zeros(32)
            && Some(c.difficulty_target@) == hex_decode_spec(difficulty_env->0@)),
        !match difficulty_env {
            Some(h) => hex_decode_spec(h@) is Some,
            None => false,
        } ==> (r matches Err(m) && m@ == "无法获取主网状态，环境变量DIFFICULTY_TARGET也未设置"@),
{
    if let Some(h) = difficulty_env {
        if let Some(bytes) = hex_decode(h) {
            let parent_hash = filled(0, 32);
            let merkle_root = filled(0, 32);
            assert(parent_hash@ =~= zeros(32));
            assert(merkle_root@ =~= zeros(32));
            return Ok(ChainState { parent_hash, merkle_root, difficulty_target: bytes });
        }
    }
    Err("无法获取主网状态，环境变量DIFFICULTY_TARGET也未设置".to_string())
}

/// Why the id of the heaviest block could not be read.
#[derive(Debug)]
pub enum BlockIdError {
    /// The peek failed (the error's text).
    PeekFailed(String),
    /// The node returned nothing.
    NoHeavyBlock,
    /// The answer is no cell (the node's error text).
    RootNotCell(String),
    /// The answer's tail is no cell (the node's error text).
    TailNotCell(String),
    /// The block id is no atom (the node's error text).
    IdNotAtom(String),
}

impl BlockIdError {
    /// The error's message.
    pub fn message(&self) -> (m: String)
        ensures
            m@ == match self {
                BlockIdError::PeekFailed(e) => "peek heavy failed: "@ + e@,
                BlockIdError::NoHeavyBlock => "no heavy block returned"@,
                BlockIdError::RootNotCell(e) => "heavy result is not a cell: "@ + e@,
                BlockIdError::TailNotCell(e) => "heavy tail is not a cell: "@ + e@,
                BlockIdError::IdNotAtom(e) => "block_id is not an atom: "@ + e@,
            },
    {
        match self {
            BlockIdError::PeekFailed(e) => concat2("peek heavy failed: ", e.as_str()),
            BlockIdError::NoHeavyBlock => "no heavy block returned".to_string(),
            BlockIdError::RootNotCell(e) => concat2("heavy result is not a cell: ", e.as_str()),
            BlockIdError::TailNotCell(e) => concat2("heavy tail is not a cell: ", e.as_str()),
            BlockIdError::IdNotAtom(e) => concat2("block_id is not an atom: ", e.as_str()),
        }
    }
}

/// The bytes of the heaviest block's id, read from the answer to `[%heavy ~]`;
/// `not_cell` and `not_atom` are the node's error texts for a noun that is no cell
/// and no atom.
pub open spec fn current_block_id_spec(peek: PeekOutcome, not_cell: Seq<char>, not_atom: Seq<char>) -> Result<Seq<u8>, (BlockIdShape, Seq<char>)> {
    match peek {
        PeekOutcome::Failed(e) => Err((BlockIdShape::PeekFailed, e@)),
        PeekOutcome::Empty => Err((BlockIdShape::NoHeavyBlock, Seq::empty())),
        PeekOutcome::Found(root) => match heavy_block_id(root@) {
            Err(HeavyShape::RootNotCell) => Err((BlockIdShape::RootNotCell, not_cell)),
            Err(HeavyShape::TailNotCell) => Err((BlockIdShape::TailNotCell, not_cell)),
            Ok(NounView::Atom(b)) => Ok(b),
            Ok(NounView::Cell(_, _)) => Err((BlockIdShape::IdNotAtom, not_atom)),
        },
    }
}

/// Which [`BlockIdError`] an error is.
#[derive(Clone, Copy, Debug, PartialEq, Eq, Structural)]
pub enum BlockIdShape {
    PeekFailed,
    NoHeavyBlock,
    RootNotCell,
    TailNotCell,
    IdNotAtom,
}

/// The variant of a [`BlockIdError`] and the text it carries (empty for none).
pub open spec fn block_id_error_view(e: BlockIdError) -> (BlockIdShape, Seq<char>) {
    match e {
        BlockIdError::PeekFailed(t) => (BlockIdShape::PeekFailed, t@),
        BlockIdError::NoHeavyBlock => (BlockIdShape::NoHeavyBlock, Seq::empty()),
        BlockIdError::RootNotCell(t) => (BlockIdShape::RootNotCell, t@),
        BlockIdError::TailNotCell(t) => (BlockIdShape::TailNotCell, t@),
        BlockIdError::IdNotAtom(t) => (BlockIdShape::IdNotAtom, t@),
    }
}

/// The bytes of the heaviest block's id (the periodic check compares them with
/// the last ones seen); `not_cell` and `not_atom` are the node's error texts for
/// a noun of the wrong shape, carried into the error.
pub fn current_block_id(peek: PeekOutcome, not_cell: &str, not_atom: &str) -> (r: Result<Vec<u8>, BlockIdError>)
    ensures
        match r {
            Ok(b) => current_block_id_spec(peek, not_cell@, not_atom@) == Ok::<Seq<u8>, (BlockIdShape, Seq<char>)>(b@),
            Err(e) => current_block_id_spec(peek, not_cell@, not_atom@) == Err::<Seq<u8>, (BlockIdShape, Seq<char>)>(
                block_id_error_view(e),
            ),
        },
{
    match peek {
        PeekOutcome::Failed(e) => Err(BlockIdError::PeekFailed(e)),
        PeekOutcome::Empty => Err(BlockIdError::NoHeavyBlock),
        PeekOutcome::Found(root) => match heavy_block_id_of(&root) {
            Err(HeavyShape::RootNotCell) => Err(BlockIdError::RootNotCell(not_cell.to_string())),
            Err(HeavyShape::TailNotCell) => Err(BlockIdError::TailNotCell(not_cell.to_string())),
            Ok(id) => match id {
                Noun::Atom(b) => Ok(copy_bytes(b)),
                Noun::Cell(_, _) => Err(BlockIdError::IdNotAtom(not_atom.to_string())),
            },
        },
    }
}

/// What a query of the local block height does next.
#[derive(Debug)]
pub enum HeightQueryStep {
    /// Peek the node at `path` (the page of `block_id`) and hand over the answer.
    PeekBlock { block_id: Noun, path: Noun },
    /// The local block height.
    Height(u64),
    /// The query failed with this message.
    Failed(String),
}

/// The value of a height query's step.
pub enum HeightStepView {
    PeekBlock(NounView, NounView),
    Height(u64),
    Failed(Seq<char>),
}

/// The value of a height query's step.
pub open spec fn height_step_view(s: HeightQueryStep) -> HeightStepView {
    match s {
        HeightQueryStep::PeekBlock { block_id, path } => HeightStepView::PeekBlock(block_id@, path@),
        HeightQueryStep::Height(h) => HeightStepView::Height(h),
        HeightQueryStep::Failed(m) => HeightStepView::Failed(m@),
    }
}

/// The height query after the peek of `[%heavy ~]`; `not_cell` is the node's
/// error text for a noun that is no cell.
pub open spec fn height_after_heavy_spec(peek: PeekOutcome, not_cell: Seq<char>) -> HeightStepView {
    match peek {
        PeekOutcome::Failed(e) => HeightStepView::Failed("获取heavy区块失败: "@ + e@),
        PeekOutcome::Empty => HeightStepView::Failed("未找到heavy区块"@),
        PeekOutcome::Found(root) => match heavy_block_id(root@) {
            Err(HeavyShape::RootNotCell) => HeightStepView::Failed("解析heavy root失败: "@ + not_cell),
            Err(HeavyShape::TailNotCell) => HeightStepView::Failed("解析heavy cell失败: "@ + not_cell),
            Ok(id) => HeightStepView::PeekBlock(id, block_path_view(id)),
        },
    }
}

/// The height query's step after the peek of `[%heavy ~]`.
pub fn height_query_after_heavy(peek: PeekOutcome, not_cell: &str) -> (s: HeightQueryStep)
    ensures
        height_step_view(s) == height_after_heavy_spec(peek, not_cell@),
{
    match &peek {
        PeekOutcome::Failed(e) => HeightQueryStep::Failed(concat2("获取heavy区块失败: ", e.as_str())),
        PeekOutcome::Empty => HeightQueryStep::Failed("未找到heavy区块".to_string()),
        PeekOutcome::Found(root) => match heavy_block_id_of(root) {
            Err(HeavyShape::RootNotCell) => HeightQueryStep::Failed(concat2("解析heavy root失败: ", not_cell)),
            Err(HeavyShape::TailNotCell) => HeightQueryStep::Failed(concat2("解析heavy cell失败: ", not_cell)),
            Ok(id) => HeightQueryStep::PeekBlock { block_id: id.copy(), path: block_path(id) },
        },
    }
}

/// The height query after the peek of the block's page: the page's head atom as a
/// 64-bit value; `not_cell` is the node's error text for a noun that is no cell.
pub open spec fn height_after_block_spec(peek: PeekOutcome, not_cell: Seq<char>) -> HeightStepView {
    match peek {
        PeekOutcome::Failed(e) => HeightStepView::Failed("获取区块信息失败: "@ + e@),
        PeekOutcome::Empty => HeightStepView::Failed("未找到区块信息"@),
        PeekOutcome::Found(root) => match root@ {
            NounView::Atom(_) => HeightStepView::Failed("解析区块页面失败: "@ + not_cell),
            NounView::Cell(h, _) => match *h {
                NounView::Atom(b) => match atom_u64(b) {
                    Some(v) => HeightStepView::Height(v),
                    None => HeightStepView::Failed("无法获取当前区块高度"@),
                },
                NounView::Cell(_, _) => HeightStepView::Failed("无法获取当前区块高度"@),
            },
        },
    }
}

/// The height query's step after the peek of the block's page.
pub fn height_query_after_block(peek: PeekOutcome, not_cell: &str) -> (s: HeightQueryStep)
    ensures
        height_step_view(s) == height_after_block_spec(peek, not_cell@),
{
    proof {
        reveal_with_fuel(noun_view, 2);
    }
    match &peek {
        PeekOutcome::Failed(e) => HeightQueryStep::Failed(concat2("获取区块信息失败: ", e.as_str())),
        PeekOutcome::Empty => HeightQueryStep::Failed("未找到区块信息".to_string()),
        PeekOutcome::Found(root) => match root {
            Noun::Atom(_) => HeightQueryStep::Failed(concat2("解析区块页面失败: ", not_cell)),
            Noun::Cell(h, _) => match &**h {
                Noun::Atom(b) => match atom_as_u64(b) {
                    Some(v) => HeightQueryStep::Height(v),
                    None => HeightQueryStep::Failed("无法获取当前区块高度".to_string()),
                },
                Noun::Cell(_, _) => HeightQueryStep::Failed("无法获取当前区块高度".to_string()),
            },
        },
    }
}

/// `[%genesis-seal-set ~]`: whether a genesis seal is set.
pub fn genesis_seal_set_path() -> (n: Noun)
    ensures
        n@ == tag_path("genesis-seal-set".spec_bytes()),
{
    cell(cord("genesis-seal-set"), zero_atom())
}

/// `[%genesis-seal ~]`: the genesis seal that is set.
pub fn genesis_seal_path() -> (n: Noun)
    ensures
        n@ == tag_path("genesis-seal".spec_bytes()),
{
    cell(cord("genesis-seal"), zero_atom())
}

/// What the genesis check does next.
#[derive(Debug)]
pub enum GenesisStep {
    /// Peek the seal that is set, at this path.
    PeekSeal(Noun),
    /// Set the main-network genesis seal; its outcome is the check's outcome.
    SetSeal,
    /// The check's outcome.
    Verified(bool),
}

/// The value of a genesis-check step.
pub enum GenesisStepView {
    PeekSeal(NounView),
    SetSeal,
    Verified(bool),
}

/// The value of a genesis-check step.
pub open spec fn genesis_step_view(s: GenesisStep) -> GenesisStepView {
    match s {
        GenesisStep::PeekSeal(n) => GenesisStepView::PeekSeal(n@),
        GenesisStep::SetSeal => GenesisStepView::SetSeal,
        GenesisStep::Verified(b) => GenesisStepView::Verified(b),
    }
}

/// The atom is the loobean yes (`%.y`, the atom 0).
pub open spec fn is_yes(b: Seq<u8>) -> bool {
    forall|i: int| 0 <= i < b.len() ==> b[i] == 0
}

/// The genesis check after asking whether a seal is set: a `%.y` answer leads to
/// reading the seal; any other answer, or none, to setting it.
pub open spec fn genesis_after_seal_set_spec(peek: PeekOutcome) -> GenesisStepView {
    match peek {
        PeekOutcome::Found(n) => match n@ {
            NounView::Atom(b) => if is_yes(b) {
                GenesisStepView::PeekSeal(tag_path("genesis-seal".spec_bytes()))
            } else {
                GenesisStepView::SetSeal
            },
            NounView::Cell(_, _) => GenesisStepView::SetSeal,
        },
        _ => GenesisStepView::SetSeal,
    }
}

/// The answer to `[%genesis-seal-set ~]` means "set" only when it is the atom
/// `%.y` (an atom whose bytes are all zero): then the seal that is set is read.
/// Any other answer (a failed peek, no answer, a cell, another atom) means no
/// seal is set, and the main-network seal is set.
pub proof fn only_yes_reads_the_genesis_seal(peek: PeekOutcome)
    ensures
        ({
            let yes = match peek {
                PeekOutcome::Found(n) => match n@ {
                    NounView::Atom(b) => forall|i: int| 0 <= i < b.len() ==> b[i] == 0u8,
                    NounView::Cell(_, _) => false,
                },
                _ => false,
            };
            &&& yes ==> genesis_after_seal_set_spec(peek) == GenesisStepView::PeekSeal(tag_path("genesis-seal".spec_bytes()))
            &&& !yes ==> genesis_after_seal_set_spec(peek) == GenesisStepView::SetSeal
        }),
{
}

fn atom_is_zero(b: &Vec<u8>) -> (r: bool)
    ensures
        r == is_yes(b@),
{
    let mut i: usize = 0;
    while i < b.len()
        invariant
            i <= b.len(),
            forall|k: int| 0 <= k < i ==> b@[k] == 0,
        decreases b.len() - i,
    {
        if b[i] != 0 {
            return false;
        }
        i = i + 1;
    }
    true
}

/// The genesis check's step after asking whether a seal is set.
pub fn genesis_after_seal_set(peek: &PeekOutcome) -> (s: GenesisStep)
    ensures
        genesis_step_view(s) == genesis_after_seal_set_spec(*peek),
{
    match peek {
        PeekOutcome::Found(n) => match n {
            Noun::Atom(b) => {
                if atom_is_zero(b) {
                    GenesisStep::PeekSeal(genesis_seal_path())
                } else {
                    GenesisStep::SetSeal
                }
            },
            Noun::Cell(_, _) => GenesisStep::SetSeal,
        },
        _ => GenesisStep::SetSeal,
    }
}

/// The text `String::from_utf8_lossy` makes of bytes.
pub uninterp spec fn utf8_lossy(bytes: Seq<u8>) -> Seq<char>;

/// `String::from_utf8_lossy`: the bytes as text, each invalid sequence replaced;
/// valid UTF-8 is decoded as it stands.
#[verifier::external_body]
fn utf8_lossy_text(bytes: &[u8]) -> (s: String)
    ensures
        s@ == utf8_lossy(bytes@),
        valid_utf8(bytes@) ==> s@ == decode_utf8(bytes@),
{
    String::from_utf8_lossy(bytes).to_string()
}

/// The genesis check after reading the seal that is set: a seal whose text holds
/// the main-network genesis message passes; another atom leads to setting the
/// main-network seal; no answer, or a cell, fails the check.
pub open spec fn genesis_after_seal_spec(peek: PeekOutcome, realnet_message: Seq<char>) -> GenesisStepView {
    match peek {
        PeekOutcome::Found(n) => match n@ {
            NounView::Atom(b) => if contains_seq(utf8_lossy(b), realnet_message) {
                GenesisStepView::Verified(true)
            } else {
                GenesisStepView::SetSeal
            },
            NounView::Cell(_, _) => GenesisStepView::Verified(false),
        },
        _ => GenesisStepView::Verified(false),
    }
}

/// The genesis check's step after reading the seal that is set.
pub fn genesis_after_seal(peek: &PeekOutcome, realnet_message: &str) -> (s: GenesisStep)
    ensures
        genesis_step_view(s) == genesis_after_seal_spec(*peek, realnet_message@),
{
    match peek {
        PeekOutcome::Found(n) => match n {
            Noun::Atom(b) => {
                let text = utf8_lossy_text(b.as_slice());
                if contains(text.as_str(), realnet_message) {
                    GenesisStep::Verified(true)
                } else {
                    GenesisStep::SetSeal
                }
            },
            Noun::Cell(_, _) => GenesisStep::Verified(false),
        },
        _ => GenesisStep::Verified(false),
    }
}

/// The atom of a number.
pub fn number_atom(v: u64) -> (n: Noun)
    ensures
        n@ == NounView::Atom(crate::pow::le_bytes(v as nat, 8)),
{
    Noun::Atom(crate::pow::u64_le_bytes(v))
}

/// The atom of some bytes.
pub fn bytes_atom(b: &[u8]) -> (n: Noun)
    ensures
        n@ == NounView::Atom(b@),
{
    let mut v: Vec<u8> = Vec::new();
    let mut i: usize = 0;
    while i < b.len()
        invariant
            i <= b.len(),
            v@ == b@.take(i as int),
        decreases b.len() - i,
    {
        v.push(b[i]);
        assert(b@.take(i + 1) =~= b@.take(i as int).push(b@[i as int]));
        i = i + 1;
    }
    assert(b@.take(b.len() as int) =~= b@);
    Noun::Atom(v)
}

/// A right-nested tuple `[a b c ...]` of the given nouns.
pub open spec fn tuple_view(items: Seq<NounView>) -> NounView
    decreases items.len(),
{
    if items.len() <= 1 {
        if items.len() == 1 { items[0] } else { NounView::Atom(Seq::empty()) }
    } else {
        NounView::Cell(Box::new(items[0]), Box::new(tuple_view(items.drop_first())))
    }
}

/// The poke that sets the genesis seal: `[%command %set-genesis-seal height seal]`.
pub fn genesis_seal_poke(height: u64, seal_bytes: &[u8]) -> (n: Noun)
    ensures
        n@ == tuple_view(seq![
            NounView::Atom("command".spec_bytes()),
            NounView::Atom("set-genesis-seal".spec_bytes()),
            NounView::Atom(crate::pow::le_bytes(height as nat, 8)),
            NounView::Atom(seal_bytes@),
        ]),
{
    let ghost items = seq![
        NounView::Atom("command".spec_bytes()),
        NounView::Atom("set-genesis-seal".spec_bytes()),
        NounView::Atom(crate::pow::le_bytes(height as nat, 8)),
        NounView::Atom(seal_bytes@),
    ];
    let n = cell(cord("command"), cell(cord("set-genesis-seal"), cell(number_atom(height), bytes_atom(seal_bytes))));
    proof {
        reveal_with_fuel(tuple_view, 4);
        assert(items.drop_first().drop_first().drop_first() =~= seq![NounView::Atom(seal_bytes@)]);
        assert(items.drop_first().drop_first() =~= seq![
            NounView::Atom(crate::pow::le_bytes(height as nat, 8)),
            NounView::Atom(seal_bytes@),
        ]);
        assert(items.drop_first() =~= seq![
            NounView::Atom("set-genesis-seal".spec_bytes()),
            NounView::Atom(crate::pow::le_bytes(height as nat, 8)),
            NounView::Atom(seal_bytes@),
        ]);
    }
    n
}

/// The outcome of setting the genesis seal: accepted, refused, or an error.
pub fn seal_poke_result(r: Result<PokeOutcome, String>) -> (o: Result<bool, String>)
    ensures
        r matches Ok(p) ==> o == Ok::<bool, String>(p == PokeOutcome::Ack),
        r matches Err(e) ==> (o matches Err(m) && m@ == "设置主网创世区块时出错: "@ + e@),
{
    match r {
        Ok(PokeOutcome::Ack) => Ok(true),
        Ok(PokeOutcome::Nack) => Ok(false),
        Err(e) => Err(concat2("设置主网创世区块时出错: ", e.as_str())),
    }
}

/// The poke that submits a block:
/// `[%command %submit-block parent-hash merkle-root timestamp nonce]`.
pub fn submit_block_poke(b: &crate::work::BlockSubmission) -> (n: Noun)
    ensures
        n@ == tuple_view(seq![
            NounView::Atom("command".spec_bytes()),
            NounView::Atom("submit-block".spec_bytes()),
            NounView::Atom(b.parent_hash@),
            NounView::Atom(b.merkle_root@),
            NounView::Atom(crate::pow::le_bytes(b.timestamp as nat, 8)),
            NounView::Atom(b.nonce@),
        ]),
{
    let ghost items = seq![
        NounView::Atom("command".spec_bytes()),
        NounView::Atom("submit-block".spec_bytes()),
        NounView::Atom(b.parent_hash@),
        NounView::Atom(b.merkle_root@),
        NounView::Atom(crate::pow::le_bytes(b.timestamp as nat, 8)),
        NounView::Atom(b.nonce@),
    ];
    let n = cell(
        cord("command"),
        cell(
            cord("submit-block"),
            cell(
                bytes_atom(b.parent_hash.as_slice()),
                cell(bytes_atom(b.merkle_root.as_slice()), cell(number_atom(b.timestamp), bytes_atom(b.nonce.as_slice()))),
            ),
        ),
    );
    proof {
        reveal_with_fuel(tuple_view, 6);
        let s1 = items.drop_first();
        let s2 = s1.drop_first();
        let s3 = s2.drop_first();
        let s4 = s3.drop_first();
        let s5 = s4.drop_first();
        assert(s5 =~= seq![NounView::Atom(b.nonce@)]);
        assert(s4 =~= seq![NounView::Atom(crate::pow::le_bytes(b.timestamp as nat, 8)), NounView::Atom(b.nonce@)]);
        assert(s3.len() == 3 && s3[0] == NounView::Atom(b.merkle_root@) && s3.drop_first() == s4);
        assert(s2.len() == 4 && s2[0] == NounView::Atom(b.parent_hash@) && s2.drop_first() == s3);
        assert(s1.len() == 5 && s1[0] == NounView::Atom("submit-block".spec_bytes()) && s1.drop_first() == s2);
    }
    n
}

/// Whether a block poke was accepted: only an ack is; a refusal or a failed poke is not.
pub fn block_accepted(r: &Result<PokeOutcome, String>) -> (b: bool)
    ensures
        b == (*r matches Ok(p) && p == PokeOutcome::Ack),
{
    match r {
        Ok(PokeOutcome::Ack) => true,
        _ => false,
    }
}

/// What the initial synchronisation with the main network does next.
#[derive(Clone, Copy, Debug, PartialEq, Eq, Structural)]
pub enum SyncAction {
    /// Run the genesis check.
    VerifyGenesis,
    /// Set the main-network genesis seal.
    SetGenesisSeal,
    /// Read the local block height.
    GetLocalHeight,
    /// Read the network block height (the local one is `local`).
    GetNetworkHeight { local: u64 },
    /// Compare the two heights (the caller computes the percentage).
    Judge { local: u64, network: u64 },
    /// The synchronisation is over; whether the pool is in sync enough to mine.
    Finish(bool),
}

/// The updates made as the synchronisation starts, before the genesis check.
pub fn sync_start() -> (r: (Vec<StatusUpdate>, SyncAction))
    ensures
        updates_view(r.0@) == seq![sync("正在同步"@)],
        r.1 == SyncAction::VerifyGenesis,
{
    let mut u: Vec<StatusUpdate> = Vec::new();
    u.push(set_sync("正在同步"));
    assert(updates_view(u@) =~= seq![sync("正在同步"@)]);
    (u, SyncAction::VerifyGenesis)
}

/// After the genesis check (`Err` holds the error's message): a pass goes on to
/// the local height; a failure ends the synchronisation; an error is recorded and
/// ends it unless it is recoverable, in which case the seal is set.
pub fn sync_after_genesis(r: &Result<bool, String>) -> (o: (Vec<StatusUpdate>, SyncAction))
    ensures
        *r matches Ok(true) ==> updates_view(o.0@) == Seq::<UpdateView>::empty() && o.1 == SyncAction::GetLocalHeight,
        *r matches Ok(false) ==> updates_view(o.0@) == seq![sync("创世区块验证失败"@)] && o.1 == SyncAction::Finish(false),
        *r matches Err(m) ==> updates_view(o.0@) == seq![sync("创世区块验证错误"@)] && o.1 == if kind_recoverable(classify(m@)) {
            SyncAction::SetGenesisSeal
        } else {
            SyncAction::Finish(false)
        },
{
    let mut u: Vec<StatusUpdate> = Vec::new();
    match r {
        Ok(true) => {
            assert(updates_view(u@) =~= Seq::<UpdateView>::empty());
            (u, SyncAction::GetLocalHeight)
        },
        Ok(false) => {
            u.push(set_sync("创世区块验证失败"));
            assert(updates_view(u@) =~= seq![sync("创世区块验证失败"@)]);
            (u, SyncAction::Finish(false))
        },
        Err(m) => {
            let err = PoolServerError::from_message(m.clone());
            u.push(set_sync("创世区块验证错误"));
            assert(updates_view(u@) =~= seq![sync("创世区块验证错误"@)]);
            if err.is_recoverable() {
                (u, SyncAction::SetGenesisSeal)
            } else {
                (u, SyncAction::Finish(false))
            }
        },
    }
}

/// After setting the seal: success goes on to the local height; a refusal or an
/// error is recorded and ends the synchronisation.
pub fn sync_after_seal(r: &Result<bool, String>) -> (o: (Vec<StatusUpdate>, SyncAction))
    ensures
        *r matches Ok(true) ==> updates_view(o.0@) == Seq::<UpdateView>::empty() && o.1 == SyncAction::GetLocalHeight,
        *r matches Ok(false) ==> updates_view(o.0@) == seq![sync("设置创世区块失败"@)] && o.1 == SyncAction::Finish(false),
        *r is Err ==> updates_view(o.0@) == seq![sync("设置创世区块错误"@)] && o.1 == SyncAction::Finish(false),
{
    let mut u: Vec<StatusUpdate> = Vec::new();
    match r {
        Ok(true) => {
            assert(updates_view(u@) =~= Seq::<UpdateView>::empty());
            (u, SyncAction::GetLocalHeight)
        },
        Ok(false) => {
            u.push(set_sync("设置创世区块失败"));
            assert(updates_view(u@) =~= seq![sync("设置创世区块失败"@)]);
            (u, SyncAction::Finish(false))
        },
        Err(_) => {
            u.push(set_sync("设置创世区块错误"));
            assert(updates_view(u@) =~= seq![sync("设置创世区块错误"@)]);
            (u, SyncAction::Finish(false))
        },
    }
}

/// After reading the local height (`None` when it could not be read).
pub fn sync_after_local_height(height: Option<u64>) -> (o: (Vec<StatusUpdate>, SyncAction))
    ensures
        height matches Some(h) ==> updates_view(o.0@) == seq![UpdateView::BlockHeight(h)] && o.1
            == (SyncAction::GetNetworkHeight { local: h }),
        height is None ==> updates_view(o.0@) == seq![sync("获取区块高度失败"@)] && o.1 == SyncAction::Finish(false),
{
    let mut u: Vec<StatusUpdate> = Vec::new();
    match height {
        Some(h) => {
            u.push(StatusUpdate::BlockHeight(h));
            assert(updates_view(u@) =~= seq![UpdateView::BlockHeight(h)]);
            (u, SyncAction::GetNetworkHeight { local: h })
        },
        None => {
            u.push(set_sync("获取区块高度失败"));
            assert(updates_view(u@) =~= seq![sync("获取区块高度失败"@)]);
            (u, SyncAction::Finish(false))
        },
    }
}

/// After reading the network height: a known height is recorded; on an error
/// the height is recorded as unknown, and a recoverable error lets the
/// synchronisation go on with the local height plus ten, another ends it.
pub fn sync_after_network_height(local: u64, r: &Result<u64, PoolServerError>) -> (o: (Vec<StatusUpdate>, SyncAction))
    requires
        *r matches Err(e) ==> (kind_recoverable(e.kind()) ==> local + 10 <= u64::MAX),
    ensures
        *r matches Ok(n) ==> updates_view(o.0@) == seq![UpdateView::NetworkHeight(Some(n))] && o.1
            == (SyncAction::Judge { local, network: n }),
        *r matches Err(e) ==> if kind_recoverable(e.kind()) {
            updates_view(o.0@) == seq![UpdateView::NetworkHeight(None)] && o.1 == (SyncAction::Judge {
                local,
                network: (local + 10) as u64,
            })
        } else {
            updates_view(o.0@) == seq![UpdateView::NetworkHeight(None), sync("获取网络高度失败"@)] && o.1
                == SyncAction::Finish(false)
        },
{
    let mut u: Vec<StatusUpdate> = Vec::new();
    match r {
        Ok(n) => {
            u.push(StatusUpdate::NetworkHeight(Some(*n)));
            assert(updates_view(u@) =~= seq![UpdateView::NetworkHeight(Some(*n))]);
            (u, SyncAction::Judge { local, network: *n })
        },
        Err(e) => {
            u.push(StatusUpdate::NetworkHeight(None));
            if e.is_recoverable() {
                assert(updates_view(u@) =~= seq![UpdateView::NetworkHeight(None)]);
                (u, SyncAction::Judge { local, network: local + 10 })
            } else {
                u.push(set_sync("获取网络高度失败"));
                assert(updates_view(u@) =~= seq![UpdateView::NetworkHeight(None), sync("获取网络高度失败"@)]);
                (u, SyncAction::Finish(false))
            }
        },
    }
}

/// The verdict of the synchronisation. With a known network height: in sync
/// ("已同步", mining may start) when the local height has reached it; else
/// nearly in sync (mining may start) when the percentage is above ninety, else
/// still syncing; the percentage (`percent_above_ninety`, and its text with two
/// decimals, `percent_text`) is computed by the caller in floating point. With a
/// network height of zero the state is unknown.
pub fn sync_verdict(local: u64, network: u64, percent_above_ninety: bool, percent_text: &str) -> (o: (Vec<StatusUpdate>, bool))
    ensures
        network == 0 ==> updates_view(o.0@) == seq![sync("同步状态未知"@)] && !o.1,
        (network > 0 && local >= network) ==> updates_view(o.0@) == seq![sync("已同步"@)] && o.1,
        (network > 0 && local < network && percent_above_ninety) ==> updates_view(o.0@) == seq![sync(
            "同步中 ("@ + percent_text@ + "%)"@,
        )] && o.1,
        (network > 0 && local < network && !percent_above_ninety) ==> updates_view(o.0@) == seq![sync(
            "正在同步 ("@ + percent_text@ + "%)"@,
        )] && !o.1,
{
    let mut u: Vec<StatusUpdate> = Vec::new();
    if network > 0 {
        if local >= network {
            u.push(set_sync("已同步"));
            assert(updates_view(u@) =~= seq![sync("已同步"@)]);
            (u, true)
        } else if percent_above_ninety {
            u.push(StatusUpdate::SyncStatus(concat3("同步中 (", percent_text, "%)")));
            assert(updates_view(u@) =~= seq![sync("同步中 ("@ + percent_text@ + "%)"@)]);
            (u, true)
        } else {
            u.push(StatusUpdate::SyncStatus(concat3("正在同步 (", percent_text, "%)")));
            assert(updates_view(u@) =~= seq![sync("正在同步 ("@ + percent_text@ + "%)"@)]);
            (u, false)
        }
    } else {
        u.push(set_sync("同步状态未知"));
        assert(updates_view(u@) =~= seq![sync("同步状态未知"@)]);
        (u, false)
    }
}

/// The updates after the network height was asked for: a known height is
/// recorded; after a recoverable error the height and the sync state are recorded
/// as unknown; after another error nothing changes.
pub fn network_height_updates(r: &Result<u64, PoolServerError>) -> (u: Vec<StatusUpdate>)
    ensures
        *r matches Ok(h) ==> updates_view(u@) == seq![UpdateView::NetworkHeight(Some(h))],
        *r matches Err(e) ==> updates_view(u@) == if kind_recoverable(e.kind()) {
            seq![UpdateView::NetworkHeight(None), sync("同步状态未知"@)]
        } else {
            Seq::<UpdateView>::empty()
        },
{
    let mut u: Vec<StatusUpdate> = Vec::new();
    match r {
        Ok(h) => {
            u.push(StatusUpdate::NetworkHeight(Some(*h)));
            assert(updates_view(u@) =~= seq![UpdateView::NetworkHeight(Some(*h))]);
        },
        Err(e) => {
            if e.is_recoverable() {
                u.push(StatusUpdate::NetworkHeight(None));
                u.push(set_sync("同步状态未知"));
                assert(updates_view(u@) =~= seq![UpdateView::NetworkHeight(None), sync("同步状态未知"@)]);
            } else {
                assert(updates_view(u@) =~= Seq::<UpdateView>::empty());
            }
        },
    }
    u
}

/// Whether the heaviest block changed since the last periodic check.
pub fn block_changed(last_block_id: Option<&Vec<u8>>, current_block_id: &Vec<u8>) -> (b: bool)
    ensures
        b == match last_block_id {
            Some(l) => l@ != current_block_id@,
            None => true,
        },
{
    match last_block_id {
        Some(l) => !crate::work::bytes_eq(l.as_slice(), current_block_id.as_slice()),
        None => true,
    }
}

/// The heaviest block's id as the status monitor shows it: lower-case hex.
pub fn block_hash_text(block_id: &Vec<u8>) -> (s: String)
    ensures
        s@ == hex_lower(block_id@),
{
    hex_encode(block_id.as_slice())
}

} // verus!
