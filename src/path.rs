use vstd::prelude::*;
use vstd::string::*;

verus! {

/// The identity of a requested image: the content item that owns it and the
/// name of the asset inside that item's metadata.
#[derive(Debug)]
pub struct ContentImageInfo {
    pub path: String,
    pub content_id: String,
}

impl ContentImageInfo {
    /// `(content_id, path)` as character sequences.
    pub open spec fn view_pair(&self) -> (Seq<char>, Seq<char>) {
        (self.content_id@, self.path@)
    }

    /// Splits a request path into the content identifier (first segment) and
    /// the asset path (the remaining segments joined by `/`). Paths with fewer
    /// than two segments carry no image.
    pub fn from_path(path: &[String]) -> (r: Option<ContentImageInfo>)
        ensures
            info_view(r) == resolve(segments_view(path@)),
    {
        if path.len() < 2 {
            return None;
        }
        let content_id = path[0].clone();
        let mut joined = path[1].clone();
        let n = path.len();
        let mut i: usize = 2;
        proof {
            reveal_strlit("/");
            assert(segments_view(path@).subrange(1, 2) =~= seq![path@[1]@]);
        }
        while i < n
            invariant
                2 <= i <= n,
                n == path@.len(),
                joined@ == join_slash(segments_view(path@).subrange(1, i as int)),
            decreases n - i,
        {
            joined.append("/");
            joined.append(path[i].as_str());
            proof {
                let segs = segments_view(path@);
                assert(segs.subrange(1, i as int + 1).drop_last() =~= segs.subrange(1, i as int));
            }
            i = i + 1;
        }
        proof {
            assert(segments_view(path@).subrange(1, n as int) =~= segments_view(path@).drop_first());
        }
        Some(ContentImageInfo { path: joined, content_id })
    }
}

/// The segments of a request path as character sequences.
pub open spec fn segments_view(path: Seq<String>) -> Seq<Seq<char>> {
    path.map_values(|s: String| s@)
}

/// The segments joined with `/` between neighbours.
pub open spec fn join_slash(segs: Seq<Seq<char>>) -> Seq<char>
    decreases segs.len(),
{
    if segs.len() == 0 {
        Seq::empty()
    } else if segs.len() == 1 {
        segs[0]
    } else {
        join_slash(segs.drop_last()) + "/"@ + segs.last()
    }
}

/// What a path resolves to: absent below two segments, else the first segment
/// and the rest joined with `/`.
pub open spec fn resolve(segs: Seq<Seq<char>>) -> Option<(Seq<char>, Seq<char>)> {
    if segs.len() < 2 {
        None
    } else {
        Some((segs[0], join_slash(segs.drop_first())))
    }
}

/// A resolution result as character sequences.
pub open spec fn info_view(r: Option<ContentImageInfo>) -> Option<(Seq<char>, Seq<char>)> {
    match r {
        Some(info) => Some(info.view_pair()),
        None => None,
    }
}

/// A path of fewer than two segments resolves to nothing.
pub proof fn lemma_short_path_absent(segs: Seq<Seq<char>>)
    requires
        segs.len() < 2,
    ensures
        resolve(segs) is None,
{
}

/// A path of two or more segments resolves to its first segment as the
/// content identifier and the remaining segments, joined by `/`, as the asset
/// path.
pub proof fn lemma_long_path_split(segs: Seq<Seq<char>>)
    requires
        segs.len() >= 2,
    ensures
        resolve(segs) == Some((segs[0], join_slash(segs.subrange(1, segs.len() as int)))),
{
    assert(segs.drop_first() =~= segs.subrange(1, segs.len() as int));
}

/// Resolving the same path twice gives equal results: any two results that
/// `from_path` may return for one path agree.
pub proof fn lemma_resolve_idempotent(
    path: Seq<String>,
    first: Option<ContentImageInfo>,
    second: Option<ContentImageInfo>,
)
    requires
        info_view(first) == resolve(segments_view(path)),
        info_view(second) == resolve(segments_view(path)),
    ensures
        info_view(first) == info_view(second),
{
}

} // verus!
