//! Facts about rendering, list resolution and feed assembly.
use vstd::prelude::*;

use crate::feed::{first_error, first_match, ListDescriptor};
use crate::render::{
    anchor, body_html, description, image, images, linked, newlines, paragraph, quote_block,
    reshare_paragraph, stripped,
};
use crate::status::{MediaEntity, Status, UrlEntity};
use crate::text::{occurs_at, replaced};

verus! {

/// Replacing a pattern that does not occur leaves the text as it is.
pub proof fn lemma_replace_absent(s: Seq<char>, pat: Seq<char>, rep: Seq<char>)
    requires
        forall|i: int| !occurs_at(s, pat, i),
    ensures
        replaced(s, pat, rep) == s,
    decreases s.len(),
{
    if pat.len() == 0 || s.len() < pat.len() {
    } else {
        assert(!occurs_at(s, pat, 0));
        let t = s.drop_first();
        assert forall|i: int| !occurs_at(t, pat, i) by {
            if occurs_at(t, pat, i) {
                assert(s.subrange(i + 1, i + 1 + pat.len()) =~= t.subrange(i, i + pat.len()));
                assert(occurs_at(s, pat, i + 1));
            }
        }
        lemma_replace_absent(t, pat, rep);
        assert(s =~= seq![s[0]] + t);
    }
}

/// Replacing a non-empty pattern that occurs exactly once, at `k`, swaps that
/// one occurrence for the replacement.
pub proof fn lemma_replace_unique(s: Seq<char>, pat: Seq<char>, rep: Seq<char>, k: int)
    requires
        pat.len() > 0,
        occurs_at(s, pat, k),
        forall|i: int| occurs_at(s, pat, i) ==> i == k,
    ensures
        replaced(s, pat, rep) == s.subrange(0, k) + rep + s.subrange(k + pat.len(), s.len() as int),
    decreases k,
{
    let m = pat.len() as int;
    if k == 0 {
        let rest = s.subrange(m, s.len() as int);
        assert(s.subrange(0, m) == pat);
        assert forall|i: int| !occurs_at(rest, pat, i) by {
            if occurs_at(rest, pat, i) {
                assert(s.subrange(i + m, i + m + m) =~= rest.subrange(i, i + m));
                assert(occurs_at(s, pat, i + m));
            }
        }
        lemma_replace_absent(rest, pat, rep);
        assert(s.subrange(0, 0) + rep + rest =~= rep + rest);
    } else {
        assert(!occurs_at(s, pat, 0));
        let t = s.drop_first();
        assert(t.subrange(k - 1, k - 1 + m) =~= s.subrange(k, k + m));
        assert forall|i: int| occurs_at(t, pat, i) implies i == k - 1 by {
            assert(s.subrange(i + 1, i + 1 + m) =~= t.subrange(i, i + m));
            assert(occurs_at(s, pat, i + 1));
        }
        lemma_replace_unique(t, pat, rep, k - 1);
        assert(t.subrange(0, k - 1) =~= s.subrange(1, k));
        assert(t.subrange(k - 1 + m, t.len() as int) =~= s.subrange(k + m, s.len() as int));
        assert(seq![s[0]] + s.subrange(1, k) =~= s.subrange(0, k));
        assert(seq![s[0]] + (s.subrange(1, k) + rep + s.subrange(k + m, s.len() as int))
            =~= s.subrange(0, k) + rep + s.subrange(k + m, s.len() as int));
    }
}

/// A status with neither links nor attachments renders as its raw text, and
/// when it neither quotes nor reshares, its description is that text in a paragraph.
pub proof fn lemma_plain_status(st: Status)
    requires
        st.urls@.len() == 0,
        st.media@.len() == 0,
    ensures
        body_html(st) == st.text@,
        st.quoted is None && st.retweeted is None ==> description(st) == "<p>"@ + st.text@ + "</p>"@,
{
    assert(newlines(0) =~= Seq::<char>::empty());
    assert(body_html(st) =~= st.text@);
}

/// A status with one link whose short form occurs exactly once in its text,
/// and no attachments, renders as its text with that occurrence replaced by the anchor.
pub proof fn lemma_single_link(st: Status, before: Seq<char>, after: Seq<char>)
    requires
        st.urls@.len() == 1,
        st.media@.len() == 0,
        st.urls@[0].url@.len() > 0,
        st.text@ == before + st.urls@[0].url@ + after,
        forall|i: int| occurs_at(st.text@, st.urls@[0].url@, i) ==> i == before.len(),
    ensures
        body_html(st) == before + anchor(st.urls@[0]) + after,
{
    let e = st.urls@[0];
    let s = st.text@;
    let m = e.url@.len() as int;
    let k = before.len() as int;
    assert(s.subrange(k, k + m) =~= e.url@);
    lemma_replace_unique(s, e.url@, anchor(e), k);
    assert(s.subrange(0, k) =~= before);
    assert(s.subrange(k + m, s.len() as int) =~= after);
    assert(st.urls@.drop_last() =~= Seq::<UrlEntity>::empty());
    assert(linked(s, st.urls@.drop_last()) == s);
    assert(st.urls@.last() == e);
    let l = linked(s, st.urls@);
    assert(l == before + anchor(e) + after);
    assert(stripped(l, st.media@) == l);
    assert(images(st.media@) == Seq::<char>::empty());
    assert(newlines(0) =~= Seq::<char>::empty());
    assert(body_html(st) =~= l);
}

/// A status with one attachment whose short form occurs exactly once in its
/// text, and no links, renders as a line break, its text without that short
/// form, and the image element.
pub proof fn lemma_single_attachment(st: Status, before: Seq<char>, after: Seq<char>)
    requires
        st.urls@.len() == 0,
        st.media@.len() == 1,
        st.media@[0].url@.len() > 0,
        st.text@ == before + st.media@[0].url@ + after,
        forall|i: int| occurs_at(st.text@, st.media@[0].url@, i) ==> i == before.len(),
    ensures
        body_html(st) == seq!['\n'] + before + after + image(st.media@[0]),
{
    let m = st.media@[0];
    let s = st.text@;
    let n = m.url@.len() as int;
    let k = before.len() as int;
    assert(s.subrange(k, k + n) =~= m.url@);
    lemma_replace_unique(s, m.url@, Seq::empty(), k);
    assert(s.subrange(0, k) =~= before);
    assert(s.subrange(k + n, s.len() as int) =~= after);
    assert(st.media@.drop_last() =~= Seq::<MediaEntity>::empty());
    assert(linked(s, st.urls@) == s);
    assert(stripped(s, st.media@.drop_last()) == s);
    assert(st.media@.last() == m);
    assert(stripped(s, st.media@) =~= before + after);
    assert(images(st.media@.drop_last()) == Seq::<char>::empty());
    assert(images(st.media@) =~= image(m));
    assert(newlines(1) =~= seq!['\n']);
    assert(body_html(st) =~= seq!['\n'] + before + after + image(m));
}

/// Attachments give one image element each, in order, after the text.
pub proof fn lemma_images_per_attachment(media: Seq<MediaEntity>, k: int)
    requires
        0 <= k < media.len(),
    ensures
        images(media) == images(media.subrange(0, k)) + image(media[k]) + images(
            media.subrange(k + 1, media.len() as int),
        ),
    decreases media.len(),
{
    let n = media.len() as int;
    if k == n - 1 {
        assert(media.drop_last() =~= media.subrange(0, k));
        assert(media.subrange(k + 1, n) =~= Seq::<MediaEntity>::empty());
        assert(images(Seq::<MediaEntity>::empty()) =~= Seq::<char>::empty());
        assert(images(media) =~= images(media.subrange(0, k)) + image(media[k]) + Seq::<char>::empty());
    } else {
        let d = media.drop_last();
        lemma_images_per_attachment(d, k);
        assert(d.subrange(0, k) =~= media.subrange(0, k));
        assert(d.subrange(k + 1, d.len() as int).push(media.last()) =~= media.subrange(k + 1, n));
        let tail = media.subrange(k + 1, n);
        assert(tail.drop_last() =~= d.subrange(k + 1, d.len() as int));
        assert(tail.last() == media.last());
        assert(d[k] == media[k]);
        assert(images(tail) == images(d.subrange(k + 1, d.len() as int)) + image(media.last()));
        assert(images(media) =~= images(media.subrange(0, k)) + image(media[k]) + images(tail));
    }
}

/// A reshare overrides a quote: the description is the reshare paragraph alone.
pub proof fn lemma_reshare_overrides_quote(st: Status)
    requires
        st.quoted is Some,
        st.retweeted is Some,
    ensures
        description(st) == reshare_paragraph(*st.retweeted->0),
{
}

/// A quote without a reshare gives the status's own paragraph followed by the quote block.
pub proof fn lemma_quote_after_paragraph(st: Status)
    requires
        st.quoted is Some,
        st.retweeted is None,
    ensures
        description(st) == paragraph(st) + quote_block(*st.quoted->0),
        quote_block(*st.quoted->0) == "\n"@ + crate::render::display_name(*st.quoted->0)
            + ":\n<blockquote>"@ + body_html(*st.quoted->0) + "</blockquote>"@,
{
}

/// No list with the name gives no match; exactly one list with the name gives its id.
pub proof fn lemma_list_resolution(lists: Seq<ListDescriptor>, name: Seq<char>)
    ensures
        (forall|i: int| 0 <= i < lists.len() ==> #[trigger] lists[i].name@ != name) ==> first_match(
            lists,
            name,
        ) is None,
        forall|k: int|
            0 <= k < lists.len() && #[trigger] lists[k].name@ == name && (forall|i: int|
                0 <= i < lists.len() && i != k ==> lists[i].name@ != name) ==> first_match(lists, name)
                == Some(lists[k].id),
    decreases lists.len(),
{
    if lists.len() > 0 {
        let t = lists.drop_first();
        lemma_list_resolution(t, name);
        assert forall|i: int| 0 <= i < t.len() implies t[i] == lists[i + 1] by {}
        assert forall|k: int|
            0 <= k < lists.len() && #[trigger] lists[k].name@ == name && (forall|i: int|
                0 <= i < lists.len() && i != k ==> lists[i].name@ != name) implies first_match(lists, name)
                == Some(lists[k].id) by {
            if k > 0 {
                assert(lists[0].name@ != name);
                assert(t[k - 1] == lists[k]);
                assert forall|i: int| 0 <= i < t.len() && i != k - 1 implies t[i].name@ != name by {
                    assert(t[i] == lists[i + 1]);
                }
            }
        }
        if forall|i: int| 0 <= i < lists.len() ==> #[trigger] lists[i].name@ != name {
            assert(lists[0].name@ != name);
            assert forall|i: int| 0 <= i < t.len() implies #[trigger] t[i].name@ != name by {
                assert(t[i] == lists[i + 1]);
            }
        }
    }
}

/// One status without an author makes the whole feed fail.
pub proof fn lemma_missing_author_fails(sts: Seq<Status>, k: int)
    requires
        0 <= k < sts.len(),
        sts[k].author is None,
    ensures
        first_error(sts) is Some,
    decreases k,
{
    if k > 0 && crate::render::item_error(sts[0]) is None {
        assert(sts.drop_first()[k - 1] == sts[k]);
        lemma_missing_author_fails(sts.drop_first(), k - 1);
    }
}

} // verus!
