use vstd::prelude::*;

verus! {

/// A top-level token tree of the item that the entry-point attribute is put
/// on, reduced to what the expansion reads: a group delimited by braces,
/// with the text of the tokens inside it, or any other tree.
pub enum TokenItem {
    BraceGroup(String),
    Other,
}

/// The text inside the last brace-delimited group of `items`, if there is
/// one: for an `async fn main() { .. }` item, its body.
pub open spec fn last_brace_body(items: Seq<TokenItem>) -> Option<Seq<char>>
    decreases items.len(),
{
    if items.len() == 0 {
        None
    } else {
        match items.last() {
            TokenItem::BraceGroup(s) => Some(s@),
            TokenItem::Other => last_brace_body(items.drop_last()),
        }
    }
}

/// The text of the program entry point that runs `body` on the runtime.
pub open spec fn entry_point_text(body: Seq<char>) -> Seq<char> {
    "fn main() { sentinel_io::block_on(async { "@ + body + " }); }"@
}

/// Finds the body of the annotated function: the text of its last
/// brace-delimited group.
pub fn function_body(items: &Vec<TokenItem>) -> (r: Option<String>)
    ensures
        match r {
            Some(s) => last_brace_body(items@) == Some(s@),
            None => last_brace_body(items@) is None,
        },
{
    let mut i: usize = items.len();
    assert(items@.subrange(0, i as int) =~= items@);
    while i > 0
        invariant
            i <= items@.len(),
            last_brace_body(items@) == last_brace_body(items@.subrange(0, i as int)),
        decreases i,
    {
        let ghost prefix = items@.subrange(0, i as int);
        assert(prefix.drop_last() =~= items@.subrange(0, i - 1));
        assert(prefix.last() == items@[i - 1]);
        match &items[i - 1] {
            TokenItem::BraceGroup(s) => {
                return Some(s.clone());
            },
            TokenItem::Other => {},
        }
        i = i - 1;
    }
    assert(items@.subrange(0, 0) =~= Seq::<TokenItem>::empty());
    None
}

/// Writes the entry point that runs `body` inside `block_on`.
pub fn main_wrapper(body: &str) -> (r: String)
    ensures
        r@ == entry_point_text(body@),
        r@.len() == "fn main() { sentinel_io::block_on(async { "@.len() + body@.len() + " }); }"@.len(),
        r@.subrange(0, "fn main() { sentinel_io::block_on(async { "@.len() as int) == "fn main() { sentinel_io::block_on(async { "@,
        r@.subrange("fn main() { sentinel_io::block_on(async { "@.len() as int, ("fn main() { sentinel_io::block_on(async { "@.len() + body@.len()) as int) == body@,
        r@.subrange(("fn main() { sentinel_io::block_on(async { "@.len() + body@.len()) as int, r@.len() as int) == " }); }"@,
{
    proof {
        lemma_expansion_holds_body(body@);
    }
    let mut s = String::from_str("fn main() { sentinel_io::block_on(async { ");
    s.append(body);
    s.append(" }); }");
    s
}

/// Expands the entry-point attribute: the annotated `async fn main` becomes
/// a `fn main` that blocks on its body. The item must have a body.
pub fn expand_main(items: &Vec<TokenItem>) -> (r: String)
    requires
        last_brace_body(items@) is Some,
    ensures
        r@ == entry_point_text(last_brace_body(items@)->0),
        r@.subrange("fn main() { sentinel_io::block_on(async { "@.len() as int, r@.len() as int - " }); }"@.len()) == last_brace_body(items@)->0,
{
    let body = function_body(items);
    match body {
        Some(b) => main_wrapper(b.as_str()),
        None => {
            proof {
                assert(false);
            }
            String::new()
        },
    }
}

/// The expansion keeps the whole body, verbatim, between a fixed opening and
/// a fixed closing: nothing of the body is dropped or changed, and nothing
/// but the two fixed parts is added.
pub proof fn lemma_expansion_holds_body(body: Seq<char>)
    ensures
        entry_point_text(body).len() == "fn main() { sentinel_io::block_on(async { "@.len() + body.len() + " }); }"@.len(),
        entry_point_text(body).subrange(0, "fn main() { sentinel_io::block_on(async { "@.len() as int) == "fn main() { sentinel_io::block_on(async { "@,
        entry_point_text(body).subrange("fn main() { sentinel_io::block_on(async { "@.len() as int, ("fn main() { sentinel_io::block_on(async { "@.len() + body.len()) as int) == body,
        entry_point_text(body).subrange(("fn main() { sentinel_io::block_on(async { "@.len() + body.len()) as int, entry_point_text(body).len() as int)
            == " }); }"@,
{
    let p = "fn main() { sentinel_io::block_on(async { "@;
    let q = " }); }"@;
    let t = entry_point_text(body);
    assert(t.subrange(0, p.len() as int) =~= p);
    assert(t.subrange(p.len() as int, (p.len() + body.len()) as int) =~= body);
    assert(t.subrange((p.len() + body.len()) as int, t.len() as int) =~= q);
}

} // verus!
