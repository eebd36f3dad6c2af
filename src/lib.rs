//! Integer-level building blocks of a small wireframe cube viewer: which
//! component an index names, the layout of 4x4 grids, the topology of the
//! cube that is drawn, and what a frame of keyboard input asks for.
pub mod axis;
pub mod controls;
pub mod grid;
pub mod mesh;
