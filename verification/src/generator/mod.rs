//! Generating the files of an indexer project from its configuration.
//!
//! The generators compute the text of each file. Writing the files is left to the
//! caller.

use vstd::prelude::*;
use vstd::string::*;

pub mod config;
pub mod event_handlers;
pub mod schema;

verus! {

use crate::indexer_utils::config::IndexerConfig;
use crate::text::texts;

/// A file to write: its path below the output directory, one component after the other,
/// and its content.
#[derive(Debug, Clone, PartialEq, Eq)]
pub struct GeneratedFile {
    pub path: Vec<String>,
    pub content: String,
}

/// A generated file as a mathematical value.
pub struct GeneratedFileView {
    pub path: Seq<Seq<char>>,
    pub content: Seq<char>,
}

impl View for GeneratedFile {
    type V = GeneratedFileView;

    open spec fn view(&self) -> GeneratedFileView {
        GeneratedFileView { path: texts(self.path@), content: self.content@ }
    }
}

/// The files as mathematical values.
pub open spec fn files_view(files: Seq<GeneratedFile>) -> Seq<GeneratedFileView> {
    Seq::new(files.len(), |i: int| files[i]@)
}

/// A file directly in the output directory.
pub fn top_level_file(name: &str, content: String) -> (r: GeneratedFile)
    ensures
        r@ == (GeneratedFileView { path: seq![name@], content: content@ }),
{
    let mut path: Vec<String> = Vec::new();
    path.push(String::from_str(name));
    assert(texts(path@) =~= seq![name@]);
    GeneratedFile { path, content }
}

/// Generates all files of an indexer project.
pub struct IndexerGenerator<'a> {
    pub config: &'a IndexerConfig,
}

/// The files of the project for a configuration: the schema, the handlers, and the
/// project's configuration file, in this order.
pub open spec fn project_files(config: IndexerConfig) -> Seq<GeneratedFileView> {
    seq![
        GeneratedFileView {
            path: seq!["schema.graphql"@],
            content: schema::schema_text(config.contracts@),
        },
    ] + event_handlers::handler_files(config.contracts@) + seq![
        GeneratedFileView { path: seq!["config.yaml"@], content: config::config_text(config) },
    ]
}

impl<'a> IndexerGenerator<'a> {
    pub fn new(config: &'a IndexerConfig) -> (r: Self)
        ensures
            r.config == config,
    {
        Self { config }
    }

    /// The files of the project. There are some for every configuration.
    pub fn generate(&self) -> (r: Result<Vec<GeneratedFile>, String>)
        ensures
            r is Ok,
            files_view(r->Ok_0@) == project_files(*self.config),
    {
        let mut files: Vec<GeneratedFile> = Vec::new();
        let schema_content = match schema::SchemaGenerator::new(self.config).generate() {
            Ok(content) => content,
            Err(error) => {
                return Err(error);
            },
        };
        files.push(top_level_file("schema.graphql", schema_content));
        let mut handlers = match event_handlers::EventHandlerGenerator::new(
            self.config,
        ).generate() {
            Ok(files) => files,
            Err(error) => {
                return Err(error);
            },
        };
        let ghost handler_views = files_view(handlers@);
        let ghost first = files_view(files@);
        files.append(&mut handlers);
        let config_content = match config::ConfigGenerator::new(self.config).generate() {
            Ok(content) => content,
            Err(error) => {
                return Err(error);
            },
        };
        files.push(top_level_file("config.yaml", config_content));
        assert(files_view(files@) =~= project_files(*self.config));
        Ok(files)
    }
}

} // verus!
