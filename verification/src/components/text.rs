use unicode_segmentation::UnicodeSegmentation;
use vstd::prelude::*;
use crate::error::TuiError;
use crate::term::{move_to, ops, print, printed, Op, TermOp};
use crate::traits::Draw;

verus! {

/// The extended grapheme clusters of a text, in order: what a reader takes
/// for its characters, each possibly made of several code points.
pub uninterp spec fn grapheme_clusters(text: Seq<char>) -> Seq<Seq<char>>;

/// Each text of a sequence by its characters.
pub open spec fn texts(parts: Seq<&str>) -> Seq<Seq<char>> {
    parts.map_values(|part: &str| part@)
}

/// Calls `unicode_segmentation::UnicodeSegmentation::graphemes` for the
/// extended grapheme clusters and collects what it hands out. Trusted: the
/// pieces returned are the text's grapheme clusters, in order.
#[verifier::external_body]
fn graphemes<'a>(text: &'a str) -> (clusters: Vec<&'a str>)
    ensures
        texts(clusters@) == grapheme_clusters(text@),
{
    UnicodeSegmentation::graphemes(text, true).collect()
}

/// A basic text component, allowing a string to be printed at a given
/// location with an optional max length, counted in grapheme clusters.
#[derive(Debug, Clone, Copy)]
pub struct Text<'a> {
    pub content: &'a str,
    pub max_length: Option<u16>,
    pub x: u16,
    pub y: u16,
}

impl<'a> Default for Text<'a> {
    fn default() -> (text: Self)
        ensures
            text.content@ == Seq::<char>::empty(),
            text.max_length is None,
            text.x == 0,
            text.y == 0,
    {
        proof {
            reveal_strlit("");
        }
        let text = Text { content: "", max_length: None, x: 0, y: 0 };
        assert(text.content@ =~= Seq::<char>::empty());
        text
    }
}

/// The pass that honours a length limit: one print for each of the first
/// `max` clusters, or for all of them where there are fewer; nothing where
/// there is no limit.
pub open spec fn limited_pass(clusters: Seq<Seq<char>>, max_length: Option<u16>) -> Seq<Op> {
    match max_length {
        None => Seq::empty(),
        Some(max) => Seq::new(
            if max <= clusters.len() {
                max as nat
            } else {
                clusters.len()
            },
            |i: int| Op::Print(clusters[i]),
        ),
    }
}

impl Text<'_> {
    /// The greeting at the top left corner, with no length limit.
    pub fn new() -> (text: Text<'static>)
        ensures
            text.content@ == "Hello, world!"@,
            text.max_length is None,
            text.x == 0,
            text.y == 0,
    {
        Text { content: "Hello, world!", max_length: None, x: 0, y: 0 }
    }

    /// The pass without a limit: the cursor move and the whole content.
    pub open spec fn full_pass(&self) -> Seq<Op> {
        seq![Op::MoveTo(self.x, self.y), Op::Print(self.content@)]
    }

    /// What drawing emits, given the content's grapheme clusters: the pass
    /// without a limit, then the limited pass.
    pub open spec fn painted_with(&self, clusters: Seq<Seq<char>>) -> Seq<Op> {
        self.full_pass() + limited_pass(clusters, self.max_length)
    }

    /// Draws the text, given its content already cut into clusters: moves
    /// the cursor, writes the whole content, and where there is a length
    /// limit writes the clusters again, one by one, up to the limit.
    pub fn draw_clusters(&self, clusters: &Vec<&str>, out: &mut Vec<TermOp>)
        ensures
            ops(final(out)@) == ops(old(out)@) + self.painted_with(texts(clusters@)),
    {
        let ghost before = ops(out@);
        move_to(out, self.x, self.y);
        print(out, self.content);
        assert(ops(out@) =~= before + self.full_pass());
        if let Some(max) = self.max_length {
            let ghost parts = texts(clusters@);
            let mut done: u16 = 0;
            while done < max && (done as usize) < clusters.len()
                invariant
                    done <= max,
                    done <= clusters.len(),
                    parts == texts(clusters@),
                    ops(out@) == before + self.full_pass() + Seq::new(
                        done as nat,
                        |i: int| Op::Print(parts[i]),
                    ),
                decreases max - done,
            {
                print(out, clusters[done as usize]);
                assert(ops(out@) =~= before + self.full_pass() + Seq::new(
                    (done + 1) as nat,
                    |i: int| Op::Print(parts[i]),
                ));
                done = done + 1;
            }
            assert(ops(out@) =~= before + self.painted_with(parts));
        } else {
            assert(ops(out@) =~= before + self.painted_with(texts(clusters@)));
        }
    }
}

impl Draw for Text<'_> {
    open spec fn rejection(&self) -> Option<TuiError> {
        None
    }

    open spec fn painted(&self) -> Seq<Op> {
        self.painted_with(grapheme_clusters(self.content@))
    }

    /// Cuts the content into grapheme clusters and draws it. Never refuses.
    fn draw(&self, out: &mut Vec<TermOp>) -> (result: Result<(), TuiError>) {
        let clusters = graphemes(self.content);
        self.draw_clusters(&clusters, out);
        Ok(())
    }
}

/// A text without a length limit is written exactly once: all that its
/// drawing prints is the content itself, so the clusters that reach the
/// terminal are the content's clusters, each once and in order.
pub proof fn lemma_unlimited_text_once(text: Text)
    requires
        text.max_length is None,
    ensures
        text.painted() == text.full_pass(),
        printed(text.painted()) == text.content@,
        grapheme_clusters(printed(text.painted())) == grapheme_clusters(text.content@),
{
    assert(text.painted() =~= text.full_pass());
    let moved = seq![Op::MoveTo(text.x, text.y)];
    assert(text.full_pass().drop_last() =~= moved);
    assert(moved.drop_last() =~= Seq::<Op>::empty());
    assert(printed(moved) =~= Seq::<char>::empty()) by {
        reveal_with_fuel(printed, 2);
    }
    assert(printed(text.full_pass()) =~= text.content@) by {
        reveal_with_fuel(printed, 2);
    }
}

/// The limited pass of a text with limit `max` prints at most `max`
/// clusters, never more than there are, and they are the content's first
/// clusters in order.
pub proof fn lemma_limited_pass_bounded(clusters: Seq<Seq<char>>, max: u16)
    ensures
        limited_pass(clusters, Some(max)).len() <= max,
        limited_pass(clusters, Some(max)).len() <= clusters.len(),
        limited_pass(clusters, Some(max)).len() == max || limited_pass(clusters, Some(max)).len()
            == clusters.len(),
        forall|i: int|
            0 <= i < limited_pass(clusters, Some(max)).len() ==> #[trigger] limited_pass(
                clusters,
                Some(max),
            )[i] == Op::Print(clusters[i]),
{
}

} // verus!
