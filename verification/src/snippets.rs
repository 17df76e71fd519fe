//! Text snippets: short reusable pieces of text looked up by trigger. The
//! host loads and saves the list; every edit of it happens here.

use vstd::prelude::*;

use crate::text::str_eq;

verus! {

/// One snippet: an identifier, the trigger that names it, and the text it
/// expands to.
#[derive(Debug, Clone)]
pub struct Snippet {
    pub id: String,
    pub trigger: String,
    pub content: String,
}

/// The user's snippet list, as persisted.
#[derive(Debug, Clone)]
pub struct SnippetsData {
    pub snippets: Vec<Snippet>,
}

impl Default for SnippetsData {
    /// An empty snippet list.
    fn default() -> (d: Self)
        ensures
            d.snippets@ == Seq::<Snippet>::empty(),
    {
        SnippetsData { snippets: Vec::new() }
    }
}

/// Position of the first snippet carrying this identifier, from `i` on.
pub open spec fn find_snippet_from(s: Seq<Snippet>, id: Seq<char>, i: int) -> Option<int>
    decreases s.len() - i when 0 <= i
{
    if i >= s.len() {
        None
    } else if s[i].id@ == id {
        Some(i)
    } else {
        find_snippet_from(s, id, i + 1)
    }
}

/// The list without the snippets carrying this identifier, order kept.
pub open spec fn remove_matching(s: Seq<Snippet>, id: Seq<char>) -> Seq<Snippet>
    decreases s.len(),
{
    if s.len() == 0 {
        Seq::empty()
    } else if s[0].id@ == id {
        remove_matching(s.drop_first(), id)
    } else {
        seq![s[0]] + remove_matching(s.drop_first(), id)
    }
}

/// Append a snippet to the list.
pub fn add_snippet(data: &mut SnippetsData, snippet: Snippet)
    ensures
        final(data).snippets@ == old(data).snippets@.push(snippet),
{
    data.snippets.push(snippet);
}

/// Replace the first snippet carrying the identifier; an unknown
/// identifier leaves the list unchanged and reports the failure.
pub fn update_snippet(data: &mut SnippetsData, id: &str, snippet: Snippet)
    -> (r: Result<(), String>)
    ensures
        match find_snippet_from(old(data).snippets@, id@, 0) {
            Option::Some(k) => r is Ok
                && final(data).snippets@ == old(data).snippets@.update(k, snippet),
            Option::None => r is Err
                && r->Err_0@ == "Snippet not found"@
                && final(data).snippets@ == old(data).snippets@,
        },
{
    let ghost orig = data.snippets@;
    let n = data.snippets.len();
    let mut i: usize = 0;
    let mut found: Option<usize> = None;
    while i < n && found.is_none()
        invariant
            n == data.snippets@.len(),
            i <= n,
            data.snippets@ == orig,
            match found {
                Option::Some(j) => j < n
                    && find_snippet_from(orig, id@, 0) == Some(j as int),
                Option::None => find_snippet_from(orig, id@, 0)
                    == find_snippet_from(orig, id@, i as int),
            },
        decreases n - i + (if found is None { 1int } else { 0int }),
    {
        if str_eq(data.snippets[i].id.as_str(), id) {
            proof {
                assert(orig[i as int].id@ == id@);
                assert(find_snippet_from(orig, id@, i as int) == Some(i as int));
            }
            found = Some(i);
        } else {
            i = i + 1;
        }
    }
    match found {
        Option::Some(j) => {
            data.snippets.set(j, snippet);
            Ok(())
        },
        Option::None => {
            proof {
                assert(find_snippet_from(orig, id@, n as int) is None);
            }
            Err(String::from_str("Snippet not found"))
        },
    }
}

/// Drop every snippet carrying the identifier; the others keep their
/// order.
pub fn remove_snippet(data: &mut SnippetsData, id: &str)
    ensures
        final(data).snippets@ == remove_matching(old(data).snippets@, id@),
{
    let ghost orig = data.snippets@;
    let mut source: Vec<Snippet> = Vec::new();
    core::mem::swap(&mut data.snippets, &mut source);
    let mut kept: Vec<Snippet> = Vec::new();
    proof {
        assert(Seq::<Snippet>::empty() + remove_matching(orig, id@)
            =~= remove_matching(orig, id@));
    }
    while source.len() > 0
        invariant
            remove_matching(orig, id@) == kept@ + remove_matching(source@, id@),
        decreases source@.len(),
    {
        let ghost src_pre = source@;
        let s = source.remove(0);
        proof {
            assert(source@ =~= src_pre.drop_first());
        }
        if !str_eq(s.id.as_str(), id) {
            let ghost kept_pre = kept@;
            kept.push(s);
            proof {
                assert(remove_matching(src_pre, id@)
                    == seq![s] + remove_matching(src_pre.drop_first(), id@));
                assert(kept_pre + (seq![s] + remove_matching(src_pre.drop_first(), id@))
                    =~= (kept_pre + seq![s]) + remove_matching(src_pre.drop_first(), id@));
                assert(kept_pre + seq![s] =~= kept@);
            }
        }
    }
    proof {
        assert(kept@ + remove_matching(source@, id@) =~= kept@);
    }
    data.snippets = kept;
}

} // verus!
