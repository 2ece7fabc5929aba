//! The filename resolution bridge: what the template engine is asked when an
//! entry chunk needs the output filename of its runtime chunk, and the test
//! that the engine's answer has to pass.

use crate::error::{LinkFault, RenderError, RenderErrorView};
use crate::graph::{Chunk, ChunkView};
use vstd::prelude::*;
use vstd::std_specs::iter::IteratorSpec;
use vstd::string::StringExecFns;

verus! {

/// What a filename template is resolved against. It is made anew for every
/// resolution and handed over by value.
#[derive(Clone, Debug, PartialEq, Eq)]
pub struct FilenameContext {
    pub name: Option<String>,
    pub extension: String,
    pub id: String,
    pub content_hash: String,
    pub chunk_hash: String,
    pub hash: String,
}

/// The mathematical value of a [`FilenameContext`].
pub struct FilenameContextView {
    pub name: Option<Seq<char>>,
    pub extension: Seq<char>,
    pub id: Seq<char>,
    pub content_hash: Seq<char>,
    pub chunk_hash: Seq<char>,
    pub hash: Seq<char>,
}

impl View for FilenameContext {
    type V = FilenameContextView;

    open spec fn view(&self) -> FilenameContextView {
        FilenameContextView {
            name: crate::graph::optional_text(self.name),
            extension: self.extension@,
            id: self.id@,
            content_hash: self.content_hash@,
            chunk_hash: self.chunk_hash@,
            hash: self.hash@,
        }
    }
}

/// The context that the filename of `runtime_chunk` is resolved against, or
/// `None` where the chunk has no render hash yet.
///
/// The name is the chunk's own, or `fallback` where it has none. The render
/// hash stands for the content hash, the chunk hash and the hash alike, and
/// the extension is that of the CommonJS format.
pub open spec fn runtime_filename_context(
    runtime_chunk: ChunkView,
    fallback: Option<Seq<char>>,
) -> Option<FilenameContextView> {
    match runtime_chunk.render_hash {
        None => None,
        Some(hash) => Some(
            FilenameContextView {
                name: match runtime_chunk.name {
                    Some(name) => Some(name),
                    None => fallback,
                },
                extension: ".js"@,
                id: runtime_chunk.id,
                content_hash: hash,
                chunk_hash: hash,
                hash: hash,
            },
        ),
    }
}

/// Builds the context that the filename of `runtime_chunk` is resolved
/// against. A chunk without a render hash cannot be linked to.
pub fn build_runtime_filename_context(runtime_chunk: &Chunk, fallback: Option<&str>) -> (built:
    Result<FilenameContext, RenderError>)
    ensures
        match built {
            Ok(context) => runtime_filename_context(
                runtime_chunk@,
                match fallback {
                    Some(name) => Some(name@),
                    None => None,
                },
            ) == Some(context@),
            Err(error) => runtime_chunk@.render_hash is None && error@
                == RenderErrorView::UnresolvedRuntimeLink(LinkFault::MissingHash),
        },
{
    match &runtime_chunk.render_hash {
        None => Err(RenderError::UnresolvedRuntimeLink(LinkFault::MissingHash)),
        Some(hash) => {
            let name = match &runtime_chunk.name {
                Some(name) => Some(name.clone()),
                None => match fallback {
                    Some(name) => Some(String::from_str(name)),
                    None => None,
                },
            };
            Ok(
                FilenameContext {
                    name,
                    extension: String::from_str(".js"),
                    id: runtime_chunk.id.clone(),
                    content_hash: hash.clone(),
                    chunk_hash: hash.clone(),
                    hash: hash.clone(),
                },
            )
        },
    }
}

/// Whether `path[open]` and `path[close]` are the brackets of a placeholder:
/// an opening square bracket, at least one character that is no square
/// bracket, and a closing square bracket.
pub open spec fn placeholder_at(path: Seq<char>, open: int, close: int) -> bool {
    &&& 0 <= open
    &&& open + 1 < close < path.len()
    &&& path[open] == '['
    &&& path[close] == ']'
    &&& forall|k: int| open < k < close ==> path[k] != '[' && path[k] != ']'
}

/// Whether a resolved filename still holds a placeholder that the template
/// engine left in place.
pub open spec fn has_placeholder(path: Seq<char>) -> bool {
    exists|open: int, close: int| placeholder_at(path, open, close)
}

/// Whether an opening bracket at `open` is still waiting for its closing
/// bracket when the first `upto` characters have been read.
spec fn pending(path: Seq<char>, open: int, upto: int) -> bool {
    &&& 0 <= open < upto
    &&& path[open] == '['
    &&& forall|k: int| open < k < upto ==> path[k] != '[' && path[k] != ']'
}

/// What a scan for placeholders remembers between two characters.
#[derive(Clone, Copy, PartialEq, Eq, Structural)]
enum Scan {
    /// No opening bracket is waiting.
    Outside,
    /// The last character was an opening bracket.
    Opened,
    /// An opening bracket and at least one other character were read.
    Inside,
}

/// Whether a resolved filename still holds a placeholder.
pub fn contains_placeholder(path: &str) -> (found: bool)
    ensures
        found == has_placeholder(path@),
{
    let mut scan = Scan::Outside;
    let mut found = false;
    let ghost mut opened_at: int = 0;
    for c in it: path.chars()
        invariant
            it.seq() == path@,
            found == (exists|open: int, close: int|
                close < it.index() && placeholder_at(path@, open, close)),
            scan == Scan::Outside ==> forall|open: int| !pending(path@, open, it.index() as int),
            scan != Scan::Outside ==> pending(path@, opened_at, it.index() as int),
            scan == Scan::Opened <==> (scan != Scan::Outside && opened_at + 1 == it.index()),
    {
        let ghost at = it.index() as int;
        let ghost before = scan;
        if c == '[' {
            scan = Scan::Opened;
            proof {
                opened_at = at;
            }
        } else if c == ']' {
            if scan == Scan::Inside {
                assert(placeholder_at(path@, opened_at, at));
                found = true;
            }
            scan = Scan::Outside;
        } else if scan == Scan::Opened {
            scan = Scan::Inside;
        }
        proof {
            // A placeholder that closes here was still waiting a moment ago.
            assert forall|open: int| placeholder_at(path@, open, at) implies before
                == Scan::Inside by {
                assert(pending(path@, open, at));
                if before != Scan::Outside && open != opened_at {
                    if open < opened_at {
                        assert(path@[opened_at] == '[');
                    } else {
                        assert(path@[open] == '[');
                    }
                }
            }
            let next = at + 1;
            if scan == Scan::Outside {
                assert forall|open: int| !pending(path@, open, next) by {
                    if pending(path@, open, next) && open < at {
                        assert(pending(path@, open, at));
                    }
                }
            }
        }
    }
    found
}

} // verus!
