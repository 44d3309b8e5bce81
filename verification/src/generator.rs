//! The per-node decisions of the generation orchestrator: which nodes
//! are skipped, and how a file node is handled.
//!
//! The surrounding program walks the ordered index and performs the
//! filesystem work; every decision along the way is taken here.

use vstd::prelude::*;
use crate::config::{Config, ConfigView};
use crate::index::{IndexItem, IndexType};
use crate::paths::{ext_of, path_extension, path_starts_with, path_starts_with_exec};
use crate::text::str_eq;

verus! {

/// A node is hidden when its path relative to the root begins with `.`.
pub open spec fn is_hidden(p: Seq<char>) -> bool {
    p.len() > 0 && p[0] == '.'
}

/// An ignore entry may be written with a trailing slash; it names the
/// same subtree without it.
pub open spec fn trim_trailing_slash(q: Seq<char>) -> Seq<char> {
    if q.len() > 0 && q[q.len() - 1] == '/' {
        q.drop_last()
    } else {
        q
    }
}

/// Whether some configured ignore entry covers `p`.
pub open spec fn is_ignored(ignore: Seq<Seq<char>>, p: Seq<char>) -> bool {
    exists|k: int|
        0 <= k < ignore.len() && path_starts_with(p, trim_trailing_slash(#[trigger] ignore[k]))
}

/// Whether the orchestrator passes a node over: it is hidden while the
/// hidden-file policy is on, or an ignore entry covers it.
pub open spec fn should_skip_spec(c: ConfigView, p: Seq<char>) -> bool {
    (c.ignore_hidden && is_hidden(p)) || is_ignored(c.ignore_paths, p)
}

/// Decides whether the node at `child_path` is skipped, exactly as the
/// skip specification says: skipped nodes produce no output and no
/// error.
pub fn should_skip(config: &Config, child_path: &str) -> (r: bool)
    ensures
        r == should_skip_spec(config@, child_path@),
{
    if config.ignore_hidden && child_path.unicode_len() > 0 && child_path.get_char(0) == '.' {
        return true;
    }
    let mut k: usize = 0;
    while k < config.ignore_paths.len()
        invariant
            k <= config.ignore_paths.len(),
            forall|j: int|
                0 <= j < k ==> !path_starts_with(
                    child_path@,
                    trim_trailing_slash(#[trigger] config.ignore_paths.deep_view()[j]),
                ),
        decreases config.ignore_paths.len() - k,
    {
        let ig: &str = config.ignore_paths[k].as_str();
        let l = ig.unicode_len();
        let trimmed: &str = if l > 0 && ig.get_char(l - 1) == '/' {
            let t = ig.substring_char(0, l - 1);
            proof {
                assert(t@ =~= trim_trailing_slash(ig@));
            }
            t
        } else {
            ig
        };
        if path_starts_with_exec(child_path, trimmed) {
            proof {
                assert(config.ignore_paths.deep_view()[k as int] == ig@);
            }
            return true;
        }
        proof {
            assert(config.ignore_paths.deep_view()[k as int] == ig@);
        }
        k = k + 1;
    }
    false
}

/// How one plain file node is handled, decided by its extension.
#[derive(Debug, Clone, Copy, PartialEq, Eq, Structural)]
pub enum FileAction {
    /// A content file: loaded, decoded and rendered through its declared
    /// template.
    RenderContent,
    /// A template file without a source: rendered with an empty context.
    RenderTemplate,
    /// Minifiable text: copied through the minifier.
    MinifyCopy,
    /// Anything else: copied byte for byte.
    CopyFile,
}

/// The extension dispatch: content files first, then templates, then the
/// fixed minifiable set `html`, `htm`, `css`, then a plain copy.
pub open spec fn file_action_spec(c: ConfigView, p: Seq<char>) -> FileAction {
    let e = ext_of(p);
    if e == c.content_ext {
        FileAction::RenderContent
    } else if e == c.template_ext {
        FileAction::RenderTemplate
    } else if e == "html"@ || e == "htm"@ || e == "css"@ {
        FileAction::MinifyCopy
    } else {
        FileAction::CopyFile
    }
}

/// Decides how the file at `path` is handled, exactly as the extension
/// dispatch says.
pub fn file_action(config: &Config, path: &str) -> (r: FileAction)
    ensures
        r == file_action_spec(config@, path@),
{
    let ext = path_extension(path);
    let e = ext.as_str();
    if str_eq(e, config.content_ext.as_str()) {
        FileAction::RenderContent
    } else if str_eq(e, config.template_ext.as_str()) {
        FileAction::RenderTemplate
    } else if str_eq(e, "html") || str_eq(e, "htm") || str_eq(e, "css") {
        FileAction::MinifyCopy
    } else {
        FileAction::CopyFile
    }
}

/// What the orchestrator does with one indexed node.
#[derive(Debug, Clone, Copy, PartialEq, Eq, Structural)]
pub enum NodeDecision {
    /// Hidden or ignored: no output, no error.
    SkipIgnored,
    /// The destination already exists: first writer wins, later nodes
    /// are passed over with a warning.
    SkipDuplicate,
    /// A directory node: create the directory.
    MakeDirectory,
    /// A file node: handle as the extension dispatch says.
    HandleFile(FileAction),
    /// A collection node: resolve the whole collection.
    HandleCollection,
}

/// The orchestrator's decision for one node, exactly in this order: the
/// skip policy first, the duplicate-output guard second, then the
/// dispatch on the node's kind.
pub open spec fn dispatch_spec(
    c: ConfigView,
    kind: IndexType,
    p: Seq<char>,
    already_generated: bool,
) -> NodeDecision {
    if should_skip_spec(c, p) {
        NodeDecision::SkipIgnored
    } else if already_generated {
        NodeDecision::SkipDuplicate
    } else {
        match kind {
            IndexType::Directory => NodeDecision::MakeDirectory,
            IndexType::File => NodeDecision::HandleFile(file_action_spec(c, p)),
            IndexType::Collection => NodeDecision::HandleCollection,
        }
    }
}

/// Decides one node of the index. `child_path` is the node's path
/// relative to the source root and `already_generated` whether its
/// destination already exists.
pub fn dispatch_node(
    config: &Config,
    node: &IndexItem,
    child_path: &str,
    already_generated: bool,
) -> (r: NodeDecision)
    ensures
        r == dispatch_spec(config@, node.index_type, child_path@, already_generated),
{
    if should_skip(config, child_path) {
        NodeDecision::SkipIgnored
    } else if already_generated {
        NodeDecision::SkipDuplicate
    } else {
        match node.index_type {
            IndexType::Directory => NodeDecision::MakeDirectory,
            IndexType::File => NodeDecision::HandleFile(file_action(config, child_path)),
            IndexType::Collection => NodeDecision::HandleCollection,
        }
    }
}

} // verus!
