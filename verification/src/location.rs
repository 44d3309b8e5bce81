//! Route resolution: where a source file's generated output lives and the
//! public URL it is reached under.

use vstd::prelude::*;
use crate::error::{Error, ErrorKind};
use crate::paths::{
    child_of, file_name_of, join_of, lemma_last_index, name_stem, path_file_name, path_join,
    path_strip_prefix, path_with_extension, path_with_file_name, strip_ext_of, with_ext_of,
    with_file_name_of,
};

verus! {

/// Where one source file's output lives: the resolved paths and routes.
#[derive(Debug)]
pub struct Location {
    /// The source file itself.
    pub source_path: String,
    /// The source file relative to the source root.
    pub source_child_path: String,
    /// The source file's name.
    pub source_file_name: String,
    /// The output file's name without its extension.
    pub target_file_stem: String,
    /// The output file.
    pub target_path: String,
    /// The output file relative to the output root.
    pub target_child_path: String,
    /// The public, root-relative URL of the output.
    pub route: String,
    /// The route without its extension, for short links.
    pub short_route: String,
}

impl Location {
    /// Resolves a source path against its root: the output keeps the
    /// file's place in the tree, its stem is optionally overridden, its
    /// extension is rewritten, and the route is the root-relative form of
    /// the output child path. Fails with a path error exactly when
    /// `source_path` is not strictly inside `source_dir`.
    pub fn new(
        source_path: &str,
        source_dir: &str,
        target_dir: &str,
        extension: &str,
        custom_file_stem: Option<&str>,
    ) -> (r: Result<Location, Error>)
        ensures
            r is Ok <==> (child_of(source_path@, source_dir@) matches Some(c) && c.len() > 0),
            r matches Err(e) ==> e.kind == ErrorKind::Path,
            r matches Ok(loc) ==> {
                let child = child_of(source_path@, source_dir@)->Some_0;
                let stem = match custom_file_stem {
                    Some(s) => s@,
                    None => strip_ext_of(file_name_of(child)),
                };
                &&& loc.source_path@ == source_path@
                &&& loc.source_child_path@ == child
                &&& loc.source_file_name@ == file_name_of(child)
                &&& loc.target_file_stem@ == stem
                &&& loc.target_child_path@ == with_ext_of(
                    with_file_name_of(child, stem),
                    extension@,
                )
                &&& loc.target_path@ == join_of(target_dir@, loc.target_child_path@)
                &&& loc.route@ == seq!['/'] + loc.target_child_path@
                &&& loc.route@.len() > 0 && loc.route@[0] == '/'
                &&& loc.short_route@ == strip_ext_of(loc.route@)
            },
    {
        let child: String = match path_strip_prefix(source_path, source_dir) {
            Some(c) => c,
            None => {
                return Err(Error::new(ErrorKind::Path, source_path.to_owned()));
            },
        };
        if child.unicode_len() == 0 {
            return Err(Error::new(ErrorKind::Path, source_path.to_owned()));
        }
        let source_file_name = path_file_name(child.as_str());
        let target_file_stem: String = match custom_file_stem {
            Some(stem) => stem.to_owned(),
            None => {
                proof {
                    lemma_last_index(source_file_name@, '/');
                    crate::paths::lemma_file_name_no_slash(child@);
                }
                name_stem(source_file_name.as_str())
            },
        };
        let renamed = path_with_file_name(child.as_str(), target_file_stem.as_str());
        let target_child_path = path_with_extension(renamed.as_str(), extension);
        let target_path = path_join(target_dir, target_child_path.as_str());
        proof {
            reveal_strlit("/");
        }
        let mut route = String::new();
        route.append("/");
        route.append(target_child_path.as_str());
        let short_route = path_with_extension(route.as_str(), "");
        proof {
            reveal_strlit("");
            assert(route@ =~= seq!['/'] + target_child_path@);
        }
        Ok(
            Location {
                source_path: source_path.to_owned(),
                source_child_path: child,
                source_file_name,
                target_file_stem,
                target_path,
                target_child_path,
                route,
                short_route,
            },
        )
    }
}

/// Where one content entry's output lives. The same resolution as
/// `Location`, without a stem override: the entry keeps its file stem and
/// only the extension is rewritten.
#[derive(Debug)]
pub struct EntryLocation {
    /// The source file itself.
    pub source_path: String,
    /// The source file relative to the source root.
    pub source_child_path: String,
    /// The source file's name.
    pub source_file_name: String,
    /// The file name without its extension.
    pub file_stem: String,
    /// The output file.
    pub target_path: String,
    /// The output file relative to the output root.
    pub target_child_path: String,
    /// The public, root-relative URL of the output.
    pub route: String,
    /// The route without its extension, for short links.
    pub short_route: String,
}

impl EntryLocation {
    /// Resolves a content file against the source root: the output child
    /// path is the source child path with its extension rewritten, and
    /// the route is its root-relative form. Fails with a path error
    /// exactly when the file is not strictly inside the root or has an
    /// empty file name.
    pub fn from_paths(
        source_path: &str,
        source_dir: &str,
        out_dir: &str,
        target_ext: &str,
    ) -> (r: Result<EntryLocation, Error>)
        ensures
            r is Ok <==> (child_of(source_path@, source_dir@) matches Some(c) && file_name_of(
                c,
            ).len() > 0),
            r matches Err(e) ==> e.kind == ErrorKind::Path,
            r matches Ok(loc) ==> {
                let child = child_of(source_path@, source_dir@)->Some_0;
                &&& loc.source_path@ == source_path@
                &&& loc.source_child_path@ == child
                &&& loc.source_file_name@ == file_name_of(child)
                &&& loc.file_stem@ == strip_ext_of(file_name_of(child))
                &&& loc.target_child_path@ == with_ext_of(child, target_ext@)
                &&& loc.target_path@ == join_of(out_dir@, loc.target_child_path@)
                &&& loc.route@ == seq!['/'] + loc.target_child_path@
                &&& loc.route@.len() > 0 && loc.route@[0] == '/'
                &&& loc.short_route@ == strip_ext_of(loc.route@)
            },
    {
        let child: String = match path_strip_prefix(source_path, source_dir) {
            Some(c) => c,
            None => {
                return Err(Error::new(ErrorKind::Path, source_path.to_owned()));
            },
        };
        let source_file_name = path_file_name(child.as_str());
        if source_file_name.unicode_len() == 0 {
            return Err(Error::new(ErrorKind::Path, source_path.to_owned()));
        }
        proof {
            lemma_last_index(source_file_name@, '/');
            crate::paths::lemma_file_name_no_slash(child@);
        }
        let file_stem = name_stem(source_file_name.as_str());
        let target_child_path = path_with_extension(child.as_str(), target_ext);
        let target_path = path_join(out_dir, target_child_path.as_str());
        proof {
            reveal_strlit("/");
        }
        let mut route = String::new();
        route.append("/");
        route.append(target_child_path.as_str());
        let short_route = path_with_extension(route.as_str(), "");
        proof {
            reveal_strlit("");
            assert(route@ =~= seq!['/'] + target_child_path@);
        }
        Ok(
            EntryLocation {
                source_path: source_path.to_owned(),
                source_child_path: child,
                source_file_name,
                file_stem,
                target_path,
                target_child_path,
                route,
                short_route,
            },
        )
    }
}

} // verus!
