use nockchain_pool::chain::{
    atom_as_u64, block_accepted, block_changed, block_path, chain_query_after_block, chain_query_after_heavy,
    chain_query_start, current_block_id, fallback_chain_state, fit_to_32, genesis_after_seal, genesis_after_seal_set,
    genesis_seal_path, genesis_seal_poke, genesis_seal_set_path, heavy_path, height_query_after_block,
    height_query_after_heavy, network_height_updates, seal_poke_result, submit_block_poke, sync_after_genesis,
    sync_after_local_height, sync_after_network_height, sync_after_seal, sync_start, sync_verdict, BlockIdError,
    ChainAction, GenesisStep, HeightQueryStep, Noun, PeekOutcome, PokeOutcome, StatusUpdate, SyncAction,
};
use nockchain_pool::error::PoolServerError;
use nockchain_pool::work::BlockSubmission;

fn atom(b: &[u8]) -> Noun {
    Noun::Atom(b.to_vec())
}

fn cell(h: Noun, t: Noun) -> Noun {
    Noun::Cell(Box::new(h), Box::new(t))
}

fn word(v: u64) -> Noun {
    Noun::Atom(v.to_le_bytes().to_vec())
}

fn sync_text(u: &StatusUpdate) -> Option<&str> {
    match u {
        StatusUpdate::SyncStatus(s) => Some(s.as_str()),
        _ => None,
    }
}

fn same(a: &Noun, b: &Noun) -> bool {
    match (a, b) {
        (Noun::Atom(x), Noun::Atom(y)) => x == y,
        (Noun::Cell(h1, t1), Noun::Cell(h2, t2)) => same(h1, h2) && same(t1, t2),
        _ => false,
    }
}

#[test]
fn paths() {
    assert!(same(&heavy_path(), &cell(atom(b"heavy"), atom(&[]))));
    assert!(same(&block_path(&word(5)), &cell(atom(b"block"), cell(word(5), atom(&[])))));
    assert!(same(&genesis_seal_set_path(), &cell(atom(b"genesis-seal-set"), atom(&[]))));
    assert!(same(&genesis_seal_path(), &cell(atom(b"genesis-seal"), atom(&[]))));
}

#[test]
fn atoms_as_u64() {
    assert_eq!(atom_as_u64(&vec![1, 2]), Some(0x0201));
    assert_eq!(atom_as_u64(&vec![]), Some(0));
    assert_eq!(atom_as_u64(&7u64.to_le_bytes().to_vec()), Some(7));
    assert_eq!(atom_as_u64(&u64::MAX.to_le_bytes().to_vec()), Some(u64::MAX));
    let mut big = vec![0u8; 16];
    big[8] = 1;
    assert_eq!(atom_as_u64(&big), None);
    let mut padded = vec![0u8; 16];
    padded[0] = 9;
    assert_eq!(atom_as_u64(&padded), Some(9));
}

#[test]
fn chain_query_start_records_progress() {
    let u = chain_query_start();
    assert_eq!(u.len(), 1);
    assert_eq!(sync_text(&u[0]), Some("正在获取区块链状态"));
}

#[test]
fn heavy_answer_leads_to_the_block_peek() {
    let root = cell(atom(&[]), cell(atom(&[0xab, 0xcd]), atom(&[])));
    let (u, a) = chain_query_after_heavy(PeekOutcome::Found(root));
    assert!(matches!(&u[0], StatusUpdate::BlockHash(h) if h == "abcd"));
    match a {
        ChainAction::PeekBlock { block_id, path } => {
            assert!(same(&block_id, &atom(&[0xab, 0xcd])));
            assert!(same(&path, &block_path(&atom(&[0xab, 0xcd]))));
        },
        other => panic!("unexpected {:?}", other),
    }
    let (u, a) = chain_query_after_heavy(PeekOutcome::Found(cell(atom(&[]), cell(cell(atom(&[1]), atom(&[2])), atom(&[])))));
    assert!(matches!(&u[0], StatusUpdate::BlockHash(h) if h == "未知"));
    assert!(matches!(a, ChainAction::PeekBlock { .. }));
    let (u, a) = chain_query_after_heavy(PeekOutcome::Empty);
    assert_eq!(sync_text(&u[0]), Some("同步失败：无法连接主网"));
    assert!(matches!(a, ChainAction::Fallback));
    let (u, _) = chain_query_after_heavy(PeekOutcome::Found(atom(&[1])));
    assert_eq!(sync_text(&u[0]), Some("同步失败：无法解析区块数据"));
    let (u, _) = chain_query_after_heavy(PeekOutcome::Found(cell(atom(&[]), atom(&[1]))));
    assert_eq!(sync_text(&u[0]), Some("同步失败：无法获取区块ID"));
}

#[test]
fn block_page_gives_the_chain_state() {
    let id = word(77);
    let page = cell(word(1234), cell(atom(&[0x00, 0xff, 0x10]), cell(atom(&[1, 2, 3]), cell(atom(&[]), atom(&[])))));
    let (u, a) = chain_query_after_block(&id, PeekOutcome::Found(page));
    assert!(matches!(u[0], StatusUpdate::BlockHeight(1234)));
    assert!(matches!(u[1], StatusUpdate::RefreshNetworkHeight));
    assert!(matches!(&u[2], StatusUpdate::Difficulty(d) if d == "0x00ff10"));
    assert_eq!(sync_text(&u[3]), Some("同步成功"));
    match a {
        ChainAction::Done(c) => {
            let mut parent = vec![0u8; 29];
            parent.extend_from_slice(&[1, 2, 3]);
            assert_eq!(c.parent_hash, parent);
            assert_eq!(c.merkle_root, blake3::hash(&77u64.to_le_bytes()).as_bytes().to_vec());
            assert_eq!(c.difficulty_target, vec![0x00, 0xff, 0x10]);
        },
        other => panic!("unexpected {:?}", other),
    }
    // no transaction list: zero merkle root; parent not an atom: zero parent hash
    let page = cell(word(5), cell(atom(&[9]), cell(cell(atom(&[1]), atom(&[2])), atom(&[]))));
    let (_, a) = chain_query_after_block(&id, PeekOutcome::Found(page));
    match a {
        ChainAction::Done(c) => {
            assert_eq!(c.parent_hash, vec![0; 32]);
            assert_eq!(c.merkle_root, vec![0; 32]);
        },
        other => panic!("unexpected {:?}", other),
    }
}

#[test]
fn block_page_failures() {
    let id = word(1);
    let (u, a) = chain_query_after_block(&id, PeekOutcome::Failed("gone".to_string()));
    assert!(u.is_empty());
    assert!(matches!(a, ChainAction::Fail(m) if m == "peek block failed: gone"));
    let (u, a) = chain_query_after_block(&id, PeekOutcome::Empty);
    assert_eq!(sync_text(&u[0]), Some("同步失败：无法获取区块数据"));
    assert!(matches!(a, ChainAction::Fallback));
    let (u, _) = chain_query_after_block(&id, PeekOutcome::Found(atom(&[1])));
    assert_eq!(sync_text(&u[0]), Some("同步失败：无法解析区块数据"));
    let (u, _) = chain_query_after_block(&id, PeekOutcome::Found(cell(word(3), atom(&[1]))));
    assert!(matches!(u[0], StatusUpdate::BlockHeight(3)));
    assert_eq!(sync_text(&u[2]), Some("同步失败：无法解析区块内容"));
    let (u, _) = chain_query_after_block(&id, PeekOutcome::Found(cell(cell(word(3), word(3)), cell(cell(word(1), word(1)), atom(&[])))));
    assert!(matches!(u[0], StatusUpdate::BlockHeight(0)));
    assert_eq!(sync_text(&u[2]), Some("同步失败：无法获取难度目标"));
}

#[test]
fn parent_hash_is_brought_to_32_bytes() {
    assert_eq!(fit_to_32(&vec![1; 40]), vec![1; 32]);
    assert_eq!(fit_to_32(&vec![1; 32]), vec![1; 32]);
    let mut v = vec![0; 31];
    v.push(5);
    assert_eq!(fit_to_32(&vec![5]), v);
}

#[test]
fn fallback_state_from_environment() {
    let c = fallback_chain_state(Some("00ff")).unwrap();
    assert_eq!(c.difficulty_target, vec![0x00, 0xff]);
    assert_eq!(c.parent_hash, vec![0; 32]);
    assert_eq!(c.merkle_root, vec![0; 32]);
    assert_eq!(fallback_chain_state(Some("ABcd")).unwrap().difficulty_target, vec![0xab, 0xcd]);
    let msg = "无法获取主网状态，环境变量DIFFICULTY_TARGET也未设置";
    assert_eq!(fallback_chain_state(Some("abc")).unwrap_err(), msg);
    assert_eq!(fallback_chain_state(Some("zz")).unwrap_err(), msg);
    assert_eq!(fallback_chain_state(None).unwrap_err(), msg);
}

#[test]
fn heaviest_block_id() {
    let id = |p: PeekOutcome| current_block_id(p, "not a cell", "not an atom");
    let ok = id(PeekOutcome::Found(cell(atom(&[]), cell(atom(&[4, 5]), atom(&[]))))).unwrap();
    assert_eq!(ok, vec![4, 5]);
    assert!(matches!(id(PeekOutcome::Empty), Err(BlockIdError::NoHeavyBlock)));
    let e = id(PeekOutcome::Found(atom(&[]))).unwrap_err();
    assert!(matches!(e, BlockIdError::RootNotCell(ref t) if t == "not a cell"));
    assert_eq!(e.message(), "heavy result is not a cell: not a cell");
    let e = id(PeekOutcome::Found(cell(atom(&[]), atom(&[])))).unwrap_err();
    assert_eq!(e.message(), "heavy tail is not a cell: not a cell");
    let e = id(PeekOutcome::Found(cell(atom(&[]), cell(cell(atom(&[]), atom(&[])), atom(&[]))))).unwrap_err();
    assert_eq!(e.message(), "block_id is not an atom: not an atom");
    assert_eq!(id(PeekOutcome::Failed("x".to_string())).unwrap_err().message(), "peek heavy failed: x");
    assert_eq!(id(PeekOutcome::Empty).unwrap_err().message(), "no heavy block returned");
}

#[test]
fn local_height_query() {
    let nc = "not a cell";
    match height_query_after_heavy(PeekOutcome::Found(cell(atom(&[]), cell(word(8), atom(&[])))), nc) {
        HeightQueryStep::PeekBlock { block_id, path } => {
            assert!(same(&block_id, &word(8)));
            assert!(same(&path, &block_path(&word(8))));
        },
        other => panic!("unexpected {:?}", other),
    }
    assert!(matches!(height_query_after_heavy(PeekOutcome::Empty, nc), HeightQueryStep::Failed(m) if m == "未找到heavy区块"));
    assert!(matches!(height_query_after_heavy(PeekOutcome::Found(atom(&[1])), nc),
        HeightQueryStep::Failed(m) if m == "解析heavy root失败: not a cell"));
    assert!(matches!(height_query_after_heavy(PeekOutcome::Found(cell(atom(&[]), atom(&[]))), nc),
        HeightQueryStep::Failed(m) if m == "解析heavy cell失败: not a cell"));
    assert!(matches!(height_query_after_block(PeekOutcome::Found(cell(word(321), atom(&[]))), nc), HeightQueryStep::Height(321)));
    let mut big = vec![0u8; 16];
    big[15] = 1;
    assert!(matches!(height_query_after_block(PeekOutcome::Found(cell(Noun::Atom(big), atom(&[]))), nc),
        HeightQueryStep::Failed(m) if m == "无法获取当前区块高度"));
    assert!(matches!(height_query_after_block(PeekOutcome::Empty, nc), HeightQueryStep::Failed(m) if m == "未找到区块信息"));
    assert!(matches!(height_query_after_block(PeekOutcome::Found(atom(&[])), nc),
        HeightQueryStep::Failed(m) if m == "解析区块页面失败: not a cell"));
}

#[test]
fn genesis_check() {
    assert!(matches!(genesis_after_seal_set(&PeekOutcome::Found(word(0))), GenesisStep::PeekSeal(_)));
    assert!(matches!(genesis_after_seal_set(&PeekOutcome::Found(word(1))), GenesisStep::SetSeal));
    assert!(matches!(genesis_after_seal_set(&PeekOutcome::Empty), GenesisStep::SetSeal));
    let msg = "main network genesis";
    let mut seal = b"the main network genesis block".to_vec();
    seal.extend_from_slice(&[0, 0]);
    assert!(matches!(genesis_after_seal(&PeekOutcome::Found(Noun::Atom(seal)), msg), GenesisStep::Verified(true)));
    assert!(matches!(genesis_after_seal(&PeekOutcome::Found(atom(b"fakenet")), msg), GenesisStep::SetSeal));
    assert!(matches!(genesis_after_seal(&PeekOutcome::Found(atom(&[0xff, 0xfe])), msg), GenesisStep::SetSeal));
    assert!(matches!(genesis_after_seal(&PeekOutcome::Empty, msg), GenesisStep::Verified(false)));
    assert!(matches!(genesis_after_seal(&PeekOutcome::Found(cell(word(1), word(2))), msg), GenesisStep::Verified(false)));
}

#[test]
fn pokes() {
    let p = genesis_seal_poke(0x0102, b"seal");
    let expected = cell(atom(b"command"), cell(atom(b"set-genesis-seal"), cell(word(0x0102), atom(b"seal"))));
    assert!(same(&p, &expected));
    let b = BlockSubmission { parent_hash: vec![1], merkle_root: vec![2], timestamp: 3, nonce: vec![4] };
    let expected = cell(atom(b"command"), cell(atom(b"submit-block"), cell(atom(&[1]), cell(atom(&[2]), cell(word(3), atom(&[4]))))));
    assert!(same(&submit_block_poke(&b), &expected));
    assert_eq!(seal_poke_result(Ok(PokeOutcome::Ack)), Ok(true));
    assert_eq!(seal_poke_result(Ok(PokeOutcome::Nack)), Ok(false));
    assert_eq!(seal_poke_result(Err("io".to_string())), Err("设置主网创世区块时出错: io".to_string()));
    assert!(block_accepted(&Ok(PokeOutcome::Ack)));
    assert!(!block_accepted(&Ok(PokeOutcome::Nack)));
    assert!(!block_accepted(&Err("x".to_string())));
}

#[test]
fn initial_sync_steps() {
    let (u, a) = sync_start();
    assert_eq!(sync_text(&u[0]), Some("正在同步"));
    assert_eq!(a, SyncAction::VerifyGenesis);
    assert_eq!(sync_after_genesis(&Ok(true)).1, SyncAction::GetLocalHeight);
    let (u, a) = sync_after_genesis(&Ok(false));
    assert_eq!(sync_text(&u[0]), Some("创世区块验证失败"));
    assert_eq!(a, SyncAction::Finish(false));
    let (u, a) = sync_after_genesis(&Err("连接中断".to_string()));
    assert_eq!(sync_text(&u[0]), Some("创世区块验证错误"));
    assert_eq!(a, SyncAction::SetGenesisSeal);
    assert_eq!(sync_after_genesis(&Err("设置主网创世区块时出错: boom".to_string())).1, SyncAction::Finish(false));
    assert_eq!(sync_after_seal(&Ok(true)).1, SyncAction::GetLocalHeight);
    assert_eq!(sync_text(&sync_after_seal(&Ok(false)).0[0]), Some("设置创世区块失败"));
    assert_eq!(sync_text(&sync_after_seal(&Err("x".to_string())).0[0]), Some("设置创世区块错误"));
    assert_eq!(sync_after_local_height(Some(10)).1, SyncAction::GetNetworkHeight { local: 10 });
    assert_eq!(sync_text(&sync_after_local_height(None).0[0]), Some("获取区块高度失败"));
    let (u, a) = sync_after_network_height(10, &Ok(20));
    assert!(matches!(u[0], StatusUpdate::NetworkHeight(Some(20))));
    assert_eq!(a, SyncAction::Judge { local: 10, network: 20 });
    let (u, a) = sync_after_network_height(10, &Err(PoolServerError::NetworkError("x".to_string())));
    assert!(matches!(u[0], StatusUpdate::NetworkHeight(None)));
    assert_eq!(a, SyncAction::Judge { local: 10, network: 20 });
    let (u, a) = sync_after_network_height(10, &Err(PoolServerError::Other("x".to_string())));
    assert_eq!(sync_text(&u[1]), Some("获取网络高度失败"));
    assert_eq!(a, SyncAction::Finish(false));
}

#[test]
fn sync_verdicts() {
    let (u, ok) = sync_verdict(100, 100, false, "100.00");
    assert_eq!(sync_text(&u[0]), Some("已同步"));
    assert!(ok);
    let (u, ok) = sync_verdict(95, 100, true, "95.00");
    assert_eq!(sync_text(&u[0]), Some("同步中 (95.00%)"));
    assert!(ok);
    let (u, ok) = sync_verdict(50, 100, false, "50.00");
    assert_eq!(sync_text(&u[0]), Some("正在同步 (50.00%)"));
    assert!(!ok);
    let (u, ok) = sync_verdict(50, 0, false, "0.00");
    assert_eq!(sync_text(&u[0]), Some("同步状态未知"));
    assert!(!ok);
}

#[test]
fn network_height_refresh() {
    let u = network_height_updates(&Ok(5));
    assert!(matches!(u[0], StatusUpdate::NetworkHeight(Some(5))));
    let u = network_height_updates(&Err(PoolServerError::DataError("x".to_string())));
    assert!(matches!(u[0], StatusUpdate::NetworkHeight(None)));
    assert_eq!(sync_text(&u[1]), Some("同步状态未知"));
    assert!(network_height_updates(&Err(PoolServerError::Other("x".to_string()))).is_empty());
}

#[test]
fn block_change_detection() {
    assert!(block_changed(None, &vec![1]));
    assert!(!block_changed(Some(&vec![1]), &vec![1]));
    assert!(block_changed(Some(&vec![1]), &vec![2]));
}

#[test]
fn shown_difficulty_reads_back_as_fallback_target() {
    let target = vec![0x00, 0x80, 0xff, 0x0a, 0xb7];
    let ctx = nockchain_pool::work::WorkOrderContext {
        work_id: "w".to_string(),
        parent_hash: vec![0; 32],
        merkle_root: vec![0; 32],
        timestamp: 0,
        difficulty_target: target.clone(),
    };
    let shown = ctx.difficulty_hex();
    assert_eq!(shown, "0080ff0ab7");
    assert_eq!(fallback_chain_state(Some(shown.as_str())).unwrap().difficulty_target, target);
}
