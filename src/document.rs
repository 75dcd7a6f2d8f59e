use vstd::prelude::*;
use vstd::string::*;

verus! {

/// A metadata document: a JSON value. Object members keep their order. An
/// object read from JSON has distinct member names (`distinct_names`), so the
/// lookup below, which takes the first member with a given name, finds the
/// only one.
#[derive(Debug)]
pub enum Document {
    Null,
    Boolean(bool),
    Number,
    Text(String),
    List(Vec<Document>),
    Object(Vec<(String, Document)>),
}

/// The value of the first member named `key`, if any.
pub open spec fn member(entries: Seq<(String, Document)>, key: Seq<char>) -> Option<Document>
    decreases entries.len(),
{
    if entries.len() == 0 {
        None
    } else if entries[0].0@ == key {
        Some(entries[0].1)
    } else {
        member(entries.drop_first(), key)
    }
}

/// No two members share a name, as in every object read from JSON.
pub open spec fn distinct_names(entries: Seq<(String, Document)>) -> bool {
    forall|i: int, j: int|
        0 <= i < entries.len() && 0 <= j < entries.len() && i != j ==> #[trigger] entries[i].0@
            != #[trigger] entries[j].0@
}

/// In an object with distinct member names, looking a member up by its name
/// finds that member.
pub proof fn lemma_member_of_distinct(entries: Seq<(String, Document)>, i: int)
    requires
        distinct_names(entries),
        0 <= i < entries.len(),
    ensures
        member(entries, entries[i].0@) == Some(entries[i].1),
    decreases i,
{
    if i > 0 {
        let rest = entries.drop_first();
        assert(entries[0].0@ != entries[i].0@);
        assert forall|a: int, b: int|
            0 <= a < rest.len() && 0 <= b < rest.len() && a != b implies #[trigger] rest[a].0@
            != #[trigger] rest[b].0@ by {
            assert(rest[a] == entries[a + 1]);
            assert(rest[b] == entries[b + 1]);
        }
        assert(rest[i - 1] == entries[i]);
        lemma_member_of_distinct(rest, i - 1);
    }
}

/// The member `key` of an object; nothing for any other kind of value.
pub open spec fn child(doc: Document, key: Seq<char>) -> Option<Document> {
    match doc {
        Document::Object(entries) => member(entries@, key),
        _ => None,
    }
}

/// The value reached by following `keys` from `doc`, one member at a time.
pub open spec fn at_path(doc: Document, keys: Seq<Seq<char>>) -> Option<Document>
    decreases keys.len(),
{
    if keys.len() == 0 {
        Some(doc)
    } else {
        match child(doc, keys[0]) {
            Some(c) => at_path(c, keys.drop_first()),
            None => None,
        }
    }
}

/// Where a metadata document lists the URI of the asset `asset`.
pub open spec fn file_uri_keys(asset: Seq<char>) -> Seq<Seq<char>> {
    seq!["aspects"@, "atex.Files"@, "data"@, "files"@, asset, "fileUri"@]
}

/// The URI of the asset `asset`: the string at its key path, if there is one.
pub open spec fn file_uri_of(doc: Document, asset: Seq<char>) -> Option<Seq<char>> {
    match at_path(doc, file_uri_keys(asset)) {
        Some(Document::Text(s)) => Some(s@),
        _ => None,
    }
}

/// Whether two strings hold the same characters.
pub fn same_text(a: &str, b: &str) -> (r: bool)
    ensures
        r == (a@ == b@),
{
    let n = a.unicode_len();
    if n != b.unicode_len() {
        return false;
    }
    let mut i: usize = 0;
    while i < n
        invariant
            n == a@.len(),
            n == b@.len(),
            i <= n,
            a@.subrange(0, i as int) == b@.subrange(0, i as int),
        decreases n - i,
    {
        if a.get_char(i) != b.get_char(i) {
            return false;
        }
        proof {
            assert(a@.subrange(0, i as int + 1) =~= a@.subrange(0, i as int).push(a@[i as int]));
            assert(b@.subrange(0, i as int + 1) =~= b@.subrange(0, i as int).push(b@[i as int]));
        }
        i = i + 1;
    }
    proof {
        assert(a@ =~= a@.subrange(0, n as int));
        assert(b@ =~= b@.subrange(0, n as int));
    }
    true
}

/// The member `key` of an object; `None` for a missing member or a value that
/// is not an object.
pub fn find<'a>(doc: &'a Document, key: &str) -> (r: Option<&'a Document>)
    ensures
        r matches Some(c) ==> child(*doc, key@) == Some(*c),
        r is None ==> child(*doc, key@) is None,
{
    match doc {
        Document::Object(entries) => {
            let n = entries.len();
            let mut i: usize = 0;
            proof {
                assert(entries@.subrange(0, n as int) =~= entries@);
            }
            while i < n
                invariant
                    n == entries@.len(),
                    i <= n,
                    child(*doc, key@) == member(entries@, key@),
                    member(entries@, key@) == member(entries@.subrange(i as int, n as int), key@),
                decreases n - i,
            {
                proof {
                    assert(entries@.subrange(i as int, n as int).drop_first() =~= entries@.subrange(
                        i as int + 1,
                        n as int,
                    ));
                }
                if same_text(entries[i].0.as_str(), key) {
                    return Some(&entries[i].1);
                }
                i = i + 1;
            }
            None
        },
        _ => None,
    }
}

/// Follows `keys` from `doc`, one member at a time.
pub fn find_path<'a>(doc: &'a Document, keys: &[&str]) -> (r: Option<&'a Document>)
    ensures
        r matches Some(c) ==> at_path(*doc, keys@.map_values(|k: &str| k@)) == Some(*c),
        r is None ==> at_path(*doc, keys@.map_values(|k: &str| k@)) is None,
{
    let ghost all = keys@.map_values(|k: &str| k@);
    let n = keys.len();
    let mut cur: &Document = doc;
    let mut i: usize = 0;
    proof {
        assert(all.subrange(0, n as int) =~= all);
    }
    while i < n
        invariant
            n == keys@.len(),
            all == keys@.map_values(|k: &str| k@),
            i <= n,
            at_path(*doc, all) == at_path(*cur, all.subrange(i as int, n as int)),
        decreases n - i,
    {
        proof {
            assert(all.subrange(i as int, n as int).drop_first() =~= all.subrange(
                i as int + 1,
                n as int,
            ));
        }
        match find(cur, keys[i]) {
            Some(c) => {
                cur = c;
            },
            None => {
                return None;
            },
        }
        i = i + 1;
    }
    proof {
        assert(all.subrange(n as int, n as int) =~= Seq::<Seq<char>>::empty());
    }
    Some(cur)
}

/// The URI that the document lists for the asset `path`, if it lists a string
/// there.
pub fn get_image_uri(json: &Document, path: &str) -> (r: Option<String>)
    ensures
        r matches Some(s) ==> file_uri_of(*json, path@) == Some(s@),
        r is None ==> file_uri_of(*json, path@) is None,
{
    let keys: [&str; 6] = ["aspects", "atex.Files", "data", "files", path, "fileUri"];
    proof {
        reveal_strlit("aspects");
        reveal_strlit("atex.Files");
        reveal_strlit("data");
        reveal_strlit("files");
        reveal_strlit("fileUri");
        assert(keys@.map_values(|k: &str| k@) =~= file_uri_keys(path@));
    }
    match find_path(json, keys.as_slice()) {
        Some(Document::Text(s)) => Some(s.clone()),
        _ => None,
    }
}

} // verus!
