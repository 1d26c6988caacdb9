//! A declarative widget-tree builder. A scripted configuration tree is
//! resolved against a registry of widget types: each node becomes a widget
//! with typed property values, signal connections, children placed the way
//! their parent's kind of container takes them, and, for windows, a
//! presentation plan. Alongside it: the rules of calling scripted callbacks,
//! markup conversion, desktop-entry reading and the parsing behind the
//! system queries that scripts can make.

pub mod script;
pub mod text;
pub mod converter;
pub mod registry;
pub mod strategy;
pub mod window;
pub mod signals;
pub mod builder;
pub mod catalog;
pub mod markup;
pub mod context;
pub mod cli;
pub mod config;
pub mod services;
pub mod desktop_entry;
pub mod tray;
pub mod root_config;
