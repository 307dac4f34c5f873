//! The source-to-wasm compiler: where it keeps its files and how a source
//! file is made from the template. Reading and writing the files and
//! running the build belong to the caller.

use crate::text::{substitute, substituted, utf8_error_text, utf8_text};
use vstd::prelude::*;
use vstd::string::*;

verus! {

/// Why a function's source did not become a binary.
#[derive(Debug, Clone, PartialEq, Eq)]
pub enum CompileError {
    /// A file could not be read or written; the text is the system's own.
    IOError(String),
    /// The template is not UTF-8; the text says where it fails to be.
    EncodingError(String),
    /// The build failed.
    Generic,
}

impl CompileError {
    /// The text shown to a caller for this error.
    pub open spec fn message_spec(self) -> Seq<char> {
        match self {
            CompileError::IOError(text) => "CompileError::IOError: "@ + text@,
            CompileError::EncodingError(text) => "CompileError::EncodingError: "@ + text@,
            CompileError::Generic => "CompileError: failed to compile code"@,
        }
    }

    /// Returns the text shown to a caller for this error.
    pub fn message(&self) -> (text: String)
        ensures
            text@ == self.message_spec(),
    {
        match self {
            CompileError::IOError(text) => String::from_str("CompileError::IOError: ").concat(
                text.as_str(),
            ),
            CompileError::EncodingError(text) => String::from_str(
                "CompileError::EncodingError: ",
            ).concat(text.as_str()),
            CompileError::Generic => String::from_str("CompileError: failed to compile code"),
        }
    }
}

/// The character of the template that stands for the function's body.
pub open spec fn body_marker() -> char {
    '%'
}

/// The compiler, by the directory of its build project.
pub struct Compiler {
    dir: String,
}

impl Compiler {
    /// The directory of the build project.
    pub closed spec fn directory(self) -> Seq<char> {
        self.dir@
    }

    /// A compiler that builds in `dir`.
    pub fn new(dir: &str) -> (compiler: Self)
        ensures
            compiler.directory() == dir@,
    {
        Compiler { dir: String::from_str(dir) }
    }

    /// The path of the template that a source file is made from.
    pub fn template_path(&self) -> (path: String)
        ensures
            path@ == self.directory() + "/src/lib.mrs"@,
    {
        self.dir.clone().concat("/src/lib.mrs")
    }

    /// The path the source file is written to before the build.
    pub fn source_path(&self) -> (path: String)
        ensures
            path@ == self.directory() + "/src/lib.rs"@,
    {
        self.dir.clone().concat("/src/lib.rs")
    }

    /// The path at which the build leaves the binary.
    pub fn artifact_path() -> (path: String)
        ensures
            path@ == "./target/wasm32-unknown-unknown/release/boilerplate.wasm"@,
    {
        String::from_str("./target/wasm32-unknown-unknown/release/boilerplate.wasm")
    }

    /// Makes the source file of a function from the bytes of the template:
    /// the template's text with every `%` replaced by `body`. A template
    /// that is not UTF-8 gives `EncodingError`.
    pub fn render(template: &[u8], body: &str) -> (source: Result<String, CompileError>)
        ensures
            match source {
                Ok(code) => vstd::utf8::valid_utf8(template@) && code@ == substituted(
                    vstd::utf8::decode_utf8(template@),
                    body_marker(),
                    body@,
                ),
                Err(e) => {
                    &&& !vstd::utf8::valid_utf8(template@)
                    &&& e matches CompileError::EncodingError(text)
                    &&& text@ == utf8_error_text(template@)
                },
            },
    {
        match utf8_text(template) {
            Ok(text) => Ok(substitute(text.as_str(), '%', body)),
            Err(fault) => Err(CompileError::EncodingError(fault)),
        }
    }

    /// Decides what a finished build yields: the binary is to be read if the
    /// build succeeded, and the compilation has failed otherwise.
    pub fn built(succeeded: bool) -> (outcome: Result<(), CompileError>)
        ensures
            succeeded ==> outcome is Ok,
            !succeeded ==> (outcome matches Err(e) && e is Generic),
    {
        if succeeded {
            Ok(())
        } else {
            Err(CompileError::Generic)
        }
    }
}

} // verus!
