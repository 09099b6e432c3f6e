//! A template-scaffolding library: a declarative template configuration
//! (output mode, output name, file-inclusion globs, variable defaults),
//! a schema-enforcing parser from a generic document tree, a variable
//! binding resolver, and a render dispatcher that selects which template
//! files participate in a render and drives the templating engine.

pub mod document;
pub mod engine;
pub mod globs;
pub mod parse;
pub mod template_config;
pub mod template_rendering;
pub mod yaml;
