pub mod apps;
pub mod fs;
pub mod scan;
pub mod trash;
pub mod watch;
