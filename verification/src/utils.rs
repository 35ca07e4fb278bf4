pub mod arithmetic;
pub mod paging;
pub mod text;
