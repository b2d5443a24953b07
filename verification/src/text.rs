//! Building code text: appending pieces, and joining items with commas.
use vstd::prelude::*;

verus! {

/// The items joined in order, with `", "` between neighbours (the text of a
/// `#(#items),*` repetition).
pub open spec fn comma_join(items: Seq<Seq<char>>) -> Seq<char>
    decreases items.len(),
{
    if items.len() == 0 {
        Seq::empty()
    } else if items.len() == 1 {
        items[0]
    } else {
        comma_join(items.drop_last()) + ", "@ + items.last()
    }
}

/// Whether `s` holds exactly the characters of `lit`.
pub fn text_is(s: &String, lit: &str) -> (r: bool)
    ensures
        r == (s@ == lit@),
{
    let other = String::from_str(lit);
    *s == other
}

/// Joins the texts with `", "` between neighbours.
pub fn join_with_commas(items: &Vec<String>) -> (res: String)
    ensures
        res@ == comma_join(items@.map_values(|s: String| s@)),
{
    let ghost views = items@.map_values(|s: String| s@);
    let mut res = String::new();
    let mut i: usize = 0;
    while i < items.len()
        invariant
            i <= items.len(),
            views == items@.map_values(|s: String| s@),
            res@ == comma_join(views.take(i as int)),
        decreases items.len() - i,
    {
        if i != 0 {
            res.append(", ");
        }
        res.append(items[i].as_str());
        assert(views.take(i + 1).drop_last() =~= views.take(i as int));
        i = i + 1;
    }
    assert(views.take(items.len() as int) =~= views);
    res
}

/// Joining characterised item by item: no items join to nothing, and one more
/// item is appended after a `", "` (or alone, when it is the first).
pub proof fn lemma_comma_join_push(items: Seq<Seq<char>>, item: Seq<char>)
    ensures
        comma_join(Seq::empty()) == Seq::<char>::empty(),
        comma_join(items.push(item)) == (if items.len() == 0 {
            item
        } else {
            comma_join(items) + ", "@ + item
        }),
{
    assert(items.push(item).drop_last() =~= items);
    if items.len() == 0 {
        assert(items.push(item) =~= seq![item]);
    }
}

} // verus!
