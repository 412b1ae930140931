use nockchain_pool::api::{estimated_time_remaining, remaining_blocks, ApiState};

#[test]
fn blocks_left_to_sync() {
    assert_eq!(remaining_blocks(100, Some(150)), Some(50));
    assert_eq!(remaining_blocks(150, Some(150)), None);
    assert_eq!(remaining_blocks(200, Some(150)), None);
    assert_eq!(remaining_blocks(0, None), None);
}

#[test]
fn time_left_to_sync() {
    assert_eq!(estimated_time_remaining(0), "0秒");
    assert_eq!(estimated_time_remaining(29), "58秒");
    assert_eq!(estimated_time_remaining(30), "1分钟");
    assert_eq!(estimated_time_remaining(1799), "59分钟");
    assert_eq!(estimated_time_remaining(1800), "1小时0分钟");
    assert_eq!(estimated_time_remaining(5000), "2小时46分钟");
}

#[test]
fn api_state_holds_its_monitor() {
    let s = ApiState { status_monitor: 7u32 };
    assert_eq!(s.clone().status_monitor, 7);
}
