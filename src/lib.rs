pub mod frame;
pub mod inputman;
pub mod mesh;
pub mod texman;
