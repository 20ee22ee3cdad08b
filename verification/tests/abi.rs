use gpui_net_shell::abi::{GpuiNetArena, GpuiNetChild, GpuiNetNode, GpuiNetOp};

#[test]
fn record_layouts_are_stable() {
    assert_eq!(std::mem::size_of::<GpuiNetNode>(), 16);
    assert_eq!(std::mem::size_of::<GpuiNetChild>(), 8);
    // node(4) + code(2) + flags(2) = 8, then three aligned u64 words.
    assert_eq!(std::mem::size_of::<GpuiNetOp>(), 32);
}

#[test]
fn arena_records_are_pointer_sized_and_aligned() {
    assert_eq!(
        std::mem::align_of::<GpuiNetArena>(),
        std::mem::align_of::<&u8>()
    );
    assert_eq!(std::mem::align_of::<GpuiNetOp>(), 8);
}

#[test]
fn the_empty_arena_has_null_empty_buffers() {
    let arena = GpuiNetArena::empty();
    assert_eq!(arena.nodes, 0);
    assert_eq!(arena.nodes_len, 0);
    assert_eq!(arena.ops, 0);
    assert_eq!(arena.ops_len, 0);
    assert_eq!(arena.children, 0);
    assert_eq!(arena.children_len, 0);
    assert_eq!(arena.utf8, 0);
    assert_eq!(arena.utf8_len, 0);
}
