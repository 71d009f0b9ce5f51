//! Rendering search results into HTML fragments.

use vstd::prelude::*;
use vstd::string::*;

verus! {

/// One rendered card: the fixed fragment template with its single
/// placeholder token replaced by the URL.  The URL is inserted verbatim,
/// without HTML escaping, exactly as the template substitution does; that
/// boundary is intentional and out of scope here.
pub open spec fn spec_card(url: Seq<char>) -> Seq<char> {
    "<div class=\"giphy-card\"><img src=\""@ + url + "\"></div>"@
}

/// The concatenation of the cards of `urls`, in order, with no separator.
pub open spec fn spec_cards(urls: Seq<Seq<char>>) -> Seq<char>
    decreases urls.len(),
{
    if urls.len() == 0 {
        Seq::empty()
    } else {
        spec_cards(urls.drop_last()) + spec_card(urls.last())
    }
}

/// Render one image URL into the fixed card fragment.
///
/// The fragment template is `<div class="giphy-card"><img src="{src}"></div>`
/// with `{src}` as its one substitution token.
pub fn giphy_card(src: &str) -> (r: String)
    ensures
        r@ == spec_card(src@),
{
    String::from_str("<div class=\"giphy-card\"><img src=\"").concat(src).concat("\"></div>")
}

/// Render a sequence of image URLs: one card each, concatenated in input
/// order.  An empty sequence renders to the empty string.
pub fn render_cards(urls: &Vec<String>) -> (r: String)
    ensures
        r@ == spec_cards(urls.deep_view()),
{
    let mut out = String::new();
    let mut i: usize = 0;
    while i < urls.len()
        invariant
            i <= urls.len(),
            out@ == spec_cards(urls.deep_view().take(i as int)),
        decreases urls.len() - i,
    {
        let card = giphy_card(urls[i].as_str());
        out.append(card.as_str());
        proof {
            let dv = urls.deep_view();
            assert(dv.take(i + 1).drop_last() =~= dv.take(i as int));
            assert(dv.take(i + 1).last() == urls@[i as int]@);
        }
        i += 1;
    }
    proof {
        assert(urls.deep_view().take(urls.len() as int) =~= urls.deep_view());
    }
    out
}

/// An empty result sequence renders to the empty fragment string.
pub proof fn lemma_render_empty()
    ensures
        spec_cards(Seq::<Seq<char>>::empty()) == Seq::<char>::empty(),
{
}

} // verus!
