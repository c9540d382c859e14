//! Structured editor state, and the detector that spots an editor inside
//! captured terminal text.
//!
//! Extracting this state takes a live editor process and its socket; only
//! the shapes of the data and the text detection live here.

use vstd::prelude::*;
use crate::text::has_sub;

verus! {

/// Everything extracted from one editor instance.
#[derive(Debug, Clone)]
pub struct NeovimContext {
    pub instance_info: NeovimInstanceInfo,
    pub current_buffer: Option<CurrentBuffer>,
    pub diagnostics: Vec<Diagnostic>,
    pub open_buffers: Vec<BufferInfo>,
    pub cursor_position: Option<CursorPosition>,
    pub vim_mode: Option<String>,
    pub working_directory: Option<String>,
    pub lsp_status: Option<LspStatus>,
}

/// How the inspected editor process was reached.
#[derive(Debug, Clone)]
pub struct NeovimInstanceInfo {
    pub pid: u32,
    pub socket_path: Option<String>,
    pub version: Option<String>,
    pub config_path: Option<String>,
}

/// The buffer under the cursor.
#[derive(Debug, Clone)]
pub struct CurrentBuffer {
    pub file_path: String,
    pub file_type: Option<String>,
    pub is_modified: bool,
    pub line_count: u32,
    pub content_preview: String,
    pub surrounding_context: SurroundingContext,
}

/// The lines around the cursor.
#[derive(Debug, Clone)]
pub struct SurroundingContext {
    pub lines_before: Vec<String>,
    pub current_line: String,
    pub lines_after: Vec<String>,
    pub function_context: Option<String>,
    pub class_context: Option<String>,
}

/// One diagnostic reported by the editor.
#[derive(Debug, Clone)]
pub struct Diagnostic {
    pub file_path: String,
    pub line: u32,
    pub column: u32,
    pub severity: DiagnosticSeverity,
    pub message: String,
    pub source: Option<String>,
    pub code: Option<String>,
}

/// A diagnostic's weight.
#[derive(Debug, Clone, PartialEq, Eq, Structural)]
pub enum DiagnosticSeverity {
    Error,
    Warning,
    Info,
    Hint,
}

/// One open buffer.
#[derive(Debug, Clone)]
pub struct BufferInfo {
    pub file_path: String,
    pub is_modified: bool,
    pub is_current: bool,
    pub file_type: Option<String>,
}

/// Where the cursor stands.
#[derive(Debug, Clone)]
pub struct CursorPosition {
    pub line: u32,
    pub column: u32,
    pub line_content: String,
}

/// The language servers attached to the editor.
#[derive(Debug, Clone)]
pub struct LspStatus {
    pub active_clients: Vec<LspClient>,
    pub diagnostics_count: DiagnosticCounts,
}

/// One attached language server.
#[derive(Debug, Clone)]
pub struct LspClient {
    pub name: String,
    pub file_types: Vec<String>,
    pub status: String,
}

/// Diagnostics tallied by weight.
#[derive(Debug, Clone)]
pub struct DiagnosticCounts {
    pub errors: u32,
    pub warnings: u32,
    pub info: u32,
    pub hints: u32,
}

/// The fixed fragments whose presence in terminal text marks an editor:
/// mode lines, command prompts, and the unnamed-buffer marker.
pub open spec fn neovim_indicators() -> Seq<Seq<char>> {
    seq![
        "-- INSERT --"@,
        "-- VISUAL --"@,
        "-- NORMAL --"@,
        "-- COMMAND --"@,
        ":set"@,
        ":help"@,
        ":q"@,
        "~vim:"@,
        "[No Name]"@,
    ]
}

/// Whether terminal text shows one of the editor's marks.
pub open spec fn looks_like_neovim(content: Seq<char>) -> bool {
    exists|k: int|
        0 <= k < neovim_indicators().len() && has_sub(content, #[trigger] neovim_indicators()[
            k])
}

/// Reads editor state out of a terminal process, through the editor's own
/// command. The inspection itself needs the live process; only the
/// detector below is computable from text alone.
pub struct NeovimContextExtractor {
    nvim_command: String,
}

impl View for NeovimContextExtractor {
    type V = Seq<char>;

    closed spec fn view(&self) -> Seq<char> {
        self.nvim_command@
    }
}

impl NeovimContextExtractor {
    /// An extractor that reaches the editor under its usual command name.
    pub fn new() -> (r: Self)
        ensures
            r@ == "nvim"@,
    {
        NeovimContextExtractor { nvim_command: String::from_str("nvim") }
    }

    /// The editor command the extractor calls.
    pub fn command(&self) -> (r: &String)
        ensures
            r@ == self@,
    {
        &self.nvim_command
    }

    /// Whether captured terminal text shows an editor's marks: true exactly
    /// when one of the fixed indicator fragments occurs in the text.
    pub fn detect_neovim_in_terminal(&self, terminal_content: &str) -> (r: bool)
        ensures
            r == looks_like_neovim(terminal_content@),
    {
        let hit = crate::text::contains_sub(terminal_content, "-- INSERT --")
            || crate::text::contains_sub(terminal_content, "-- VISUAL --")
            || crate::text::contains_sub(terminal_content, "-- NORMAL --")
            || crate::text::contains_sub(terminal_content, "-- COMMAND --")
            || crate::text::contains_sub(terminal_content, ":set")
            || crate::text::contains_sub(terminal_content, ":help")
            || crate::text::contains_sub(terminal_content, ":q")
            || crate::text::contains_sub(terminal_content, "~vim:")
            || crate::text::contains_sub(terminal_content, "[No Name]");
        proof {
            let inds = neovim_indicators();
            if hit {
                assert(looks_like_neovim(terminal_content@)) by {
                    if has_sub(terminal_content@, "-- INSERT --"@) {
                        assert(inds[0] == "-- INSERT --"@);
                    } else if has_sub(terminal_content@, "-- VISUAL --"@) {
                        assert(inds[1] == "-- VISUAL --"@);
                    } else if has_sub(terminal_content@, "-- NORMAL --"@) {
                        assert(inds[2] == "-- NORMAL --"@);
                    } else if has_sub(terminal_content@, "-- COMMAND --"@) {
                        assert(inds[3] == "-- COMMAND --"@);
                    } else if has_sub(terminal_content@, ":set"@) {
                        assert(inds[4] == ":set"@);
                    } else if has_sub(terminal_content@, ":help"@) {
                        assert(inds[5] == ":help"@);
                    } else if has_sub(terminal_content@, ":q"@) {
                        assert(inds[6] == ":q"@);
                    } else if has_sub(terminal_content@, "~vim:"@) {
                        assert(inds[7] == "~vim:"@);
                    } else {
                        assert(inds[8] == "[No Name]"@);
                    }
                }
            } else {
                assert forall|k: int| 0 <= k < inds.len() implies !has_sub(
                    terminal_content@, #[trigger] inds[k]) by {
                    if k == 0 {
                        assert(inds[0] == "-- INSERT --"@);
                    } else if k == 1 {
                        assert(inds[1] == "-- VISUAL --"@);
                    } else if k == 2 {
                        assert(inds[2] == "-- NORMAL --"@);
                    } else if k == 3 {
                        assert(inds[3] == "-- COMMAND --"@);
                    } else if k == 4 {
                        assert(inds[4] == ":set"@);
                    } else if k == 5 {
                        assert(inds[5] == ":help"@);
                    } else if k == 6 {
                        assert(inds[6] == ":q"@);
                    } else if k == 7 {
                        assert(inds[7] == "~vim:"@);
                    } else {
                        assert(inds[8] == "[No Name]"@);
                    }
                }
            }
        }
        hit
    }
}

impl Default for NeovimContextExtractor {
    /// The same extractor [`NeovimContextExtractor::new`] builds.
    fn default() -> (r: Self)
        ensures
            r@ == "nvim"@,
    {
        NeovimContextExtractor::new()
    }
}

} // verus!
