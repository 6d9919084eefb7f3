//! A reactive core that keeps view records in step with model records.
//!
//! A small number of models (todo items and one composition buffer) drive
//! any number of views that mirror them. Nothing is drawn here: the outside
//! reports what happened to its widgets, and once per tick the core answers
//! with the effects to perform on them.
//!
//! A tick runs in a fixed order: the queued actions change the models, and
//! creations and deletions are committed at the flush; views are built for
//! the new models and changed fields are pushed into the views that show
//! them; the focus requests are served; every one-tick pulse ends; and the
//! views whose model is gone are removed.
pub mod action;
pub mod cascade;
pub mod effect;
pub mod engine;
pub mod focus;
pub mod intake;
pub mod laws;
pub mod lemmas;
pub mod materialize;
pub mod propagate;
pub mod record;
pub mod store;
pub mod tree_builder;
