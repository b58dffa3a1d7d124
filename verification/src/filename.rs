//! Naming the output file.
//!
//! A name given by the user is taken as it is. Without one, the file is
//! called after the last path segment of the URL that is not empty, and
//! `index.html` where the path has no such segment.

use vstd::prelude::*;

verus! {

/// The name of a file whose URL names none.
pub open spec fn default_name() -> Seq<char> {
    "index.html"@
}

/// The last of the segments that is not empty, if there is one.
pub open spec fn last_named(segments: Seq<Seq<char>>) -> Option<Seq<char>>
    decreases segments.len(),
{
    if segments.len() == 0 {
        None
    } else if segments.last().len() > 0 {
        Some(segments.last())
    } else {
        last_named(segments.drop_last())
    }
}

/// The file name that a URL's path gives. `path` is `None` for a URL
/// without path segments, as `mailto:` and `data:` URLs are.
pub open spec fn derived_name(path: Option<Seq<Seq<char>>>) -> Seq<char> {
    match path {
        Some(segments) => match last_named(segments) {
            Some(name) => name,
            None => default_name(),
        },
        None => default_name(),
    }
}

/// The file name of a download: the user's choice where there is one,
/// else the name that the path gives.
pub open spec fn chosen_name(
    output: Option<Seq<char>>,
    path: Option<Seq<Seq<char>>>,
) -> Seq<char> {
    match output {
        Some(name) => name,
        None => derived_name(path),
    }
}

/// The position of the last segment that is not empty.
fn last_named_index(segments: &Vec<String>) -> (r: Option<usize>)
    ensures
        match r {
            Some(i) => {
                &&& i < segments.len()
                &&& last_named(segments.deep_view()) == Some(segments[i as int]@)
            },
            None => last_named(segments.deep_view()) is None,
        },
{
    let ghost all = segments.deep_view();
    let mut i: usize = segments.len();
    assert(all.take(i as int) =~= all);
    while i > 0
        invariant
            i <= segments.len(),
            all == segments.deep_view(),
            last_named(all) == last_named(all.take(i as int)),
        decreases i,
    {
        i -= 1;
        let ghost upto = all.take(i + 1);
        assert(upto.last() == segments[i as int]@);
        if !segments[i].as_str().is_empty() {
            return Some(i);
        }
        assert(upto.drop_last() =~= all.take(i as int));
    }
    None
}

/// Names the file after the path of its URL.
pub fn derive_filename(path: &Option<Vec<String>>) -> (name: String)
    ensures
        name@ == derived_name(path.deep_view()),
{
    match path {
        Some(segments) => match last_named_index(segments) {
            Some(i) => segments[i].clone(),
            None => "index.html".to_owned(),
        },
        None => "index.html".to_owned(),
    }
}

/// Names the output file of a download whose URL has the given path.
pub fn choose_filename(output: Option<&str>, path: &Option<Vec<String>>) -> (name: String)
    ensures
        name@ == chosen_name(output.deep_view(), path.deep_view()),
        output matches Some(given) ==> name@ == given@,
{
    match output {
        Some(given) => given.to_owned(),
        None => derive_filename(path),
    }
}

/// `last_named` picks a segment that is not empty and is followed by empty
/// segments only; it finds none exactly when every segment is empty.
pub proof fn last_named_is_last(segments: Seq<Seq<char>>)
    ensures
        match last_named(segments) {
            Some(name) => exists|i: int|
                {
                    &&& 0 <= i < segments.len()
                    &&& #[trigger] segments[i] == name
                    &&& name.len() > 0
                    &&& forall|j: int|
                        i < j < segments.len() ==> (#[trigger] segments[j]).len() == 0
                },
            None => forall|j: int| 0 <= j < segments.len() ==> (#[trigger] segments[j]).len() == 0,
        },
    decreases segments.len(),
{
    if segments.len() == 0 {
    } else if segments.last().len() > 0 {
        let i = segments.len() - 1;
        assert(segments[i] == segments.last());
    } else {
        let front = segments.drop_last();
        last_named_is_last(front);
        match last_named(front) {
            Some(name) => {
                let i = choose|i: int|
                    {
                        &&& 0 <= i < front.len()
                        &&& #[trigger] front[i] == name
                        &&& name.len() > 0
                        &&& forall|j: int| i < j < front.len() ==> (#[trigger] front[j]).len() == 0
                    };
                assert(segments[i] == name);
                assert forall|j: int| i < j < segments.len() implies (#[trigger] segments[j]).len()
                    == 0 by {
                    if j < front.len() {
                        assert(front[j].len() == 0);
                    }
                }
            },
            None => {
                assert forall|j: int| 0 <= j < segments.len() implies (#[trigger] segments[j]).len()
                    == 0 by {
                    if j < front.len() {
                        assert(front[j].len() == 0);
                    }
                }
            },
        }
    }
}

/// Without a name from the user, a path that ends in a segment that is not
/// empty names the file by that segment, whatever comes before it.
pub proof fn final_segment_names_the_file(before: Seq<Seq<char>>, name: Seq<char>)
    requires
        name.len() > 0,
    ensures
        chosen_name(None, Some(before.push(name))) == name,
{
    assert(before.push(name).last() == name);
}

/// Segments that are empty do not count: those at the end of a path are
/// passed over.
pub proof fn empty_segments_are_skipped(segments: Seq<Seq<char>>)
    ensures
        derived_name(Some(segments.push(Seq::empty()))) == derived_name(Some(segments)),
{
    let longer = segments.push(Seq::<char>::empty());
    assert(longer.last().len() == 0);
    assert(longer.drop_last() =~= segments);
}

/// Without a name from the user, a URL without path segments, or with
/// none that is not empty, gives `index.html`.
pub proof fn unnamed_path_gets_default(path: Option<Seq<Seq<char>>>)
    requires
        path matches Some(segments) ==> forall|j: int|
            0 <= j < segments.len() ==> (#[trigger] segments[j]).len() == 0,
    ensures
        chosen_name(None, path) == "index.html"@,
{
    if let Some(segments) = path {
        last_named_is_last(segments);
    }
}

/// A name given by the user is the name of the file, whatever the URL's
/// path is.
pub proof fn given_name_is_used(name: Seq<char>, path: Option<Seq<Seq<char>>>)
    ensures
        chosen_name(Some(name), path) == name,
{
}

/// A name taken from the URL is never empty.
pub proof fn derived_name_is_not_empty(path: Option<Seq<Seq<char>>>)
    ensures
        derived_name(path).len() > 0,
{
    reveal_strlit("index.html");
    if let Some(segments) = path {
        last_named_is_last(segments);
    }
}

} // verus!
