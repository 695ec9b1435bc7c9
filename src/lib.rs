//! A small HTTP front-end over a local fortune database: the category index,
//! the query handling, the mapping of the fortune program's outcome and the
//! replies are the verified logic; sockets, processes and the directory
//! listing are left to the caller.

pub mod categories;
pub mod config;
pub mod fortune;
pub mod guarantees;
pub mod query;
pub mod reply;

pub use categories::{is_category_name, CategoryIndex};
pub use config::{parse_port, DEFAULT_PORT};
pub use fortune::{fortune_args, fortune_from_run, FortuneError, ProgramRun};
pub use query::{category_from_query, is_space, strip_category_token, trim_spaces};
pub use reply::{
    categories_reply, categories_reply_from, fortune_reply, reply_for_run, route, Reply, Route,
    STATUS_NOT_FOUND, STATUS_OK,
};
