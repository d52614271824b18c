//! A verified repository for blog posts.
//!
//! The library states, in contracts over mathematical models, what each
//! operation on the `posts` table does: create, find, publish and delete.
//! `table` holds the rows in memory and is the model that every operation is
//! proved against; `statement` gives the SQL that a relational store runs for
//! the same operations; `config` decides where a connection goes.
pub mod config;
pub mod laws;
pub mod post;
pub mod repository;
pub mod statement;
pub mod table;

pub use config::{database_url, ConfigError};
pub use post::{NewPost, Post, PostView};
pub use repository::{
    create_post, delete_post, find_post, post_from_reply, publish_post, write_changed, RepoError,
};
pub use statement::{Reply, Statement, StoreError};
pub use table::PostTable;
