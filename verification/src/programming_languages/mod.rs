pub mod branflakes;
pub mod c;
pub mod tanuki;
