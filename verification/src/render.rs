//! Rendering of the salad as text: a header line, then the elements
//! comma-and-space separated on one line, with no trailing separator and a
//! closing line break.  An empty salad renders as the header alone.

use vstd::prelude::*;

verus! {

/// The elements joined by `", "`, with no separator before the first
/// element or after the last one.
pub open spec fn joined(items: Seq<Seq<char>>) -> Seq<char>
    decreases items.len(),
{
    if items.len() == 0 {
        Seq::empty()
    } else if items.len() == 1 {
        items[0]
    } else {
        joined(items.drop_last()) + ", "@ + items.last()
    }
}

/// The full rendered text: the header line, then the joined elements ended
/// by a line break, or nothing after the header when the salad is empty.
pub open spec fn salad_text(items: Seq<Seq<char>>) -> Seq<char> {
    if items.len() == 0 {
        "Fruit salad:\n"@
    } else {
        "Fruit salad:\n"@ + joined(items) + "\n"@
    }
}

/// Renders the salad: exactly the text that `salad_text` describes.
pub fn format_fruit_salad(fruit: &Vec<String>) -> (r: String)
    ensures
        r@ == salad_text(fruit.deep_view()),
{
    let ghost items = fruit.deep_view();
    let mut out = String::from_str("Fruit salad:\n");
    let mut i: usize = 0;
    while i < fruit.len()
        invariant
            0 <= i <= fruit@.len(),
            items == fruit.deep_view(),
            out@ == "Fruit salad:\n"@ + joined(items.take(i as int)),
        decreases fruit@.len() - i,
    {
        if i > 0 {
            out.append(", ");
        }
        out.append(fruit[i].as_str());
        proof {
            let prefix = items.take(i as int + 1);
            assert(prefix.drop_last() =~= items.take(i as int));
            assert(prefix.last() == items[i as int]);
            assert(out@ =~= "Fruit salad:\n"@ + joined(prefix));
        }
        i += 1;
    }
    proof {
        assert(items.take(items.len() as int) =~= items);
    }
    if fruit.len() > 0 {
        out.append("\n");
    }
    proof {
        assert(out@ =~= salad_text(items));
    }
    out
}

} // verus!
