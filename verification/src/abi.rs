//! The records exchanged with the managed host.
//!
//! Addresses of borrowed buffers are carried as integers; an address of zero
//! stands for a null pointer, which is accepted only with a zero length.

use vstd::prelude::*;

verus! {

/// One element in a managed render arena.
///
/// `data_offset`/`data_len` address the arena's UTF-8 buffer and carry the
/// element's identity string: a Button id or Text content. A node with no data
/// has both fields zero.
#[derive(Clone, Copy, Debug, Default, PartialEq, Eq)]
pub struct GpuiNetNode {
    pub component: u32,
    pub flags: u32,
    pub data_offset: u32,
    pub data_len: u32,
}

/// One operation applied to an element.
///
/// `a`/`b`/`c` are interpreted by `code`. String operations pack
/// `(offset << 32) | len` into `a` with `b == 0`. Scalar operations use `a`
/// with `b == 0`. A method taking two arguments uses `b` for the first and `c`
/// for the second. `flags` classifies the argument(s).
#[derive(Clone, Copy, Debug, Default, PartialEq, Eq)]
pub struct GpuiNetOp {
    pub node: u32,
    pub code: u16,
    pub flags: u16,
    pub a: u64,
    pub b: u64,
    pub c: u64,
}

/// A parent/child edge. `parent` and `child` index the arena's nodes.
#[derive(Clone, Copy, Debug, Default, PartialEq, Eq)]
pub struct GpuiNetChild {
    pub parent: u32,
    pub child: u32,
}

/// A borrowed, managed-owned element description.
///
/// The host only reads these buffers during the `render` callback and copies
/// everything it keeps before returning. Every address/length pair is
/// validated; a zero length permits a zero (null) address.
#[derive(Clone, Copy, Debug, Default)]
pub struct GpuiNetArena {
    pub nodes: usize,
    pub nodes_len: u32,
    pub _pad0: u32,
    pub ops: usize,
    pub ops_len: u32,
    pub _pad1: u32,
    pub children: usize,
    pub children_len: u32,
    pub _pad2: u32,
    pub utf8: usize,
    pub utf8_len: u32,
    pub _pad3: u32,
}

impl GpuiNetArena {
    /// Whether every buffer of the arena is null and empty.
    pub open spec fn is_empty_arena(self) -> bool {
        &&& self.nodes == 0 && self.nodes_len == 0
        &&& self.ops == 0 && self.ops_len == 0
        &&& self.children == 0 && self.children_len == 0
        &&& self.utf8 == 0 && self.utf8_len == 0
        &&& self._pad0 == 0 && self._pad1 == 0 && self._pad2 == 0 && self._pad3 == 0
    }

    /// An arena with no nodes, operations, edges or text.
    pub fn empty() -> (arena: Self)
        ensures
            arena.is_empty_arena(),
    {
        GpuiNetArena {
            nodes: 0,
            nodes_len: 0,
            _pad0: 0,
            ops: 0,
            ops_len: 0,
            _pad1: 0,
            children: 0,
            children_len: 0,
            _pad2: 0,
            utf8: 0,
            utf8_len: 0,
            _pad3: 0,
        }
    }
}

} // verus!
