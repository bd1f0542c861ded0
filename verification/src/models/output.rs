//! What the OCR hands over: for each page, in reading order, the fragments of
//! text found on it and where each one lies.

use vstd::prelude::*;
use crate::decimal::Decimal;
use crate::models::fact::BoundingBox;
use crate::text::{join, joined, owned, views};

verus! {

/// The place of a fragment on its page.
#[derive(Debug, Clone, Copy, PartialEq, Eq, Structural)]
pub struct OCRBoundingBox {
    pub x: Decimal,
    pub y: Decimal,
    pub width: Decimal,
    pub height: Decimal,
}

/// One fragment of text on a page.
#[derive(Debug, Clone)]
pub struct OCRResult {
    pub text: String,
    pub bbox: OCRBoundingBox,
}

impl OCRBoundingBox {
    /// The same rectangle as the bounding box of a citation.
    pub open spec fn as_citation_box(self) -> BoundingBox {
        BoundingBox { left: self.x, top: self.y, width: self.width, height: self.height }
    }

    /// The same rectangle as the bounding box of a citation.
    pub fn to_citation_box(&self) -> (b: BoundingBox)
        ensures
            b == self.as_citation_box(),
    {
        BoundingBox { left: self.x, top: self.y, width: self.width, height: self.height }
    }
}

/// The texts of the fragments of a page, in order.
pub open spec fn fragment_texts(page: Seq<OCRResult>) -> Seq<Seq<char>> {
    page.map_values(|r: OCRResult| r.text@)
}

/// The text of a page: its fragments with a space between each two.
pub open spec fn page_text(page: Seq<OCRResult>) -> Seq<char> {
    joined(fragment_texts(page), " "@)
}

/// The texts of the pages of a document.
pub open spec fn page_texts(pages: Seq<Vec<OCRResult>>) -> Seq<Seq<char>> {
    pages.map_values(|p: Vec<OCRResult>| page_text(p@))
}

/// All fragments of a document, page after page.
pub open spec fn all_fragments(pages: Seq<Vec<OCRResult>>) -> Seq<OCRResult>
    decreases pages.len(),
{
    if pages.len() == 0 {
        Seq::empty()
    } else {
        all_fragments(pages.drop_last()) + pages.last()@
    }
}

/// The text of a page: its fragments joined by spaces.
pub fn text_of_page(page: &[OCRResult]) -> (text: String)
    ensures
        text@ == page_text(page@),
{
    let mut parts: Vec<String> = Vec::new();
    let mut i: usize = 0;
    while i < page.len()
        invariant
            i <= page.len(),
            views(parts@) == fragment_texts(page@.take(i as int)),
        decreases page.len() - i,
    {
        let ghost seen = parts@;
        parts.push(owned(page[i].text.as_str()));
        i = i + 1;
        proof {
            assert(page@.take(i as int) =~= page@.take(i - 1).push(page@[i - 1]));
            assert(views(parts@) =~= views(seen).push(page@[i - 1].text@));
            assert(views(parts@) =~= fragment_texts(page@.take(i as int)));
        }
    }
    proof {
        assert(page@.take(page.len() as int) =~= page@);
    }
    join(&parts, " ")
}

} // verus!
