//! Verified core of KenBun, a small manager that runs a Bun script in the
//! background: it judges project folders, plans each launch, keeps the log
//! history, reads the real port back from the server's output and decides
//! what the tray and the windows do.

pub mod history;
pub mod number;
pub mod port_detect;
pub mod project;
pub mod server;
pub mod text;
pub mod ui;
