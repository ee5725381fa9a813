//! Comment moderation: the sensitive-word filter and how the word list is stored.
use vstd::prelude::*;
use crate::types::ModerationConfig;
use crate::access::{Refusal, refusal, refused_with};
use crate::text::{
    join_with, join_strings, concat,
    split_scan, split_on,
    chars_of, string_of, trim, trim_chars, contains_seq, contains_chars, lowercase, to_lowercase,
    first_index, lemma_first_index, lemma_first_index_at, extend_chars, lemma_trim_noop, is_ws,
};

verus! {

/// The words of `words` that occur, case-insensitively, in `text_lower` (already lowercased);
/// empty words never match. Order and repetitions of `words` are kept.
pub open spec fn matched_words(text_lower: Seq<char>, words: Seq<Seq<char>>) -> Seq<Seq<char>>
    decreases words.len(),
{
    if words.len() == 0 {
        Seq::empty()
    } else {
        let w = words.last();
        let rest = matched_words(text_lower, words.drop_last());
        if w.len() > 0 && contains_seq(text_lower, lowercase(w)) {
            rest.push(w)
        } else {
            rest
        }
    }
}

/// The character sequences of a list of strings.
pub open spec fn views(v: Seq<String>) -> Seq<Seq<char>> {
    v.map_values(|s: String| s@)
}

/// The words of `words` whose lowered forms (`lowered`, position by position) occur in
/// `text_lower`; empty words never match. Order and repetitions of `words` are kept.
pub open spec fn matched_lowered(text_lower: Seq<char>, words: Seq<Seq<char>>, lowered: Seq<Seq<char>>) -> Seq<Seq<char>>
    decreases words.len(),
{
    if words.len() == 0 {
        Seq::empty()
    } else {
        let rest = matched_lowered(text_lower, words.drop_last(), lowered.drop_last());
        if words.last().len() > 0 && contains_seq(text_lower, lowered.last()) {
            rest.push(words.last())
        } else {
            rest
        }
    }
}

proof fn lemma_matched_lowered(text_lower: Seq<char>, words: Seq<Seq<char>>, lowered: Seq<Seq<char>>)
    requires
        lowered.len() == words.len(),
        forall|i: int| 0 <= i < words.len() ==> lowered[i] == lowercase(#[trigger] words[i]),
    ensures
        matched_lowered(text_lower, words, lowered) == matched_words(text_lower, words),
    decreases words.len(),
{
    if words.len() > 0 {
        lemma_matched_lowered(text_lower, words.drop_last(), lowered.drop_last());
        assert(lowered.last() == lowercase(words[words.len() - 1]));
    }
}

/// Picks the words whose lowered forms occur in an already lowered text (the matching that
/// follows lowercasing).
pub fn words_in_lowered_text(text_lower: &str, words: &[String], lowered: &[String]) -> (res: Vec<String>)
    requires
        lowered@.len() == words@.len(),
    ensures
        views(res@) == matched_lowered(text_lower@, views(words@), views(lowered@)),
{
    let text_chars = chars_of(text_lower);
    let mut res: Vec<String> = Vec::new();
    let mut i: usize = 0;
    while i < words.len()
        invariant
            i <= words@.len(),
            lowered@.len() == words@.len(),
            text_chars@ == text_lower@,
            views(res@) == matched_lowered(text_lower@, views(words@).take(i as int), views(lowered@).take(i as int)),
        decreases words@.len() - i,
    {
        let w = &words[i];
        let ghost ws = views(words@).take(i + 1);
        let ghost ls = views(lowered@).take(i + 1);
        assert(ws.drop_last() =~= views(words@).take(i as int));
        assert(ls.drop_last() =~= views(lowered@).take(i as int));
        assert(ws.last() == w@);
        assert(ls.last() == lowered@[i as int]@);
        if !w.as_str().is_empty() {
            let wl_chars = chars_of(lowered[i].as_str());
            if contains_chars(&text_chars, &wl_chars) {
                res.push(w.clone());
                assert(views(res@) =~= matched_lowered(text_lower@, views(words@).take(i as int), views(lowered@).take(i as int)).push(w@));
            }
        }
        i += 1;
    }
    assert(views(words@).take(words@.len() as int) =~= views(words@));
    assert(views(lowered@).take(lowered@.len() as int) =~= views(lowered@));
    res
}

/// Checks text against the sensitive word list, returning the words that occur in it
/// (compared after lowercasing both sides).
pub fn check_sensitive_words(text: &str, words: &[String]) -> (res: Vec<String>)
    ensures
        views(res@) == matched_words(lowercase(text@), views(words@)),
{
    let lower = to_lowercase(text);
    let mut lowered: Vec<String> = Vec::new();
    let mut i: usize = 0;
    while i < words.len()
        invariant
            i <= words@.len(),
            lowered@.len() == i,
            forall|j: int| 0 <= j < i ==> lowered@[j]@ == lowercase(#[trigger] words@[j]@),
        decreases words@.len() - i,
    {
        lowered.push(to_lowercase(words[i].as_str()));
        i += 1;
    }
    let res = words_in_lowered_text(lower.as_str(), words, lowered.as_slice());
    proof {
        assert forall|j: int| 0 <= j < views(words@).len() implies views(lowered@)[j] == lowercase(#[trigger] views(words@)[j]) by {
            assert(views(words@)[j] == words@[j]@);
            assert(views(lowered@)[j] == lowered@[j]@);
        }
        lemma_matched_lowered(lowercase(text@), views(words@), views(lowered@));
    }
    res
}

// ── Stored form of the word list ──

/// `str::split(',')`: the pieces between commas (one more than the number of commas).
pub open spec fn split_commas(s: Seq<char>) -> Seq<Seq<char>> {
    split_on(s, ',')
}

/// Trims each piece and keeps the non-empty ones.
pub open spec fn clean_words(pieces: Seq<Seq<char>>) -> Seq<Seq<char>>
    decreases pieces.len(),
{
    if pieces.len() == 0 {
        Seq::empty()
    } else {
        let rest = clean_words(pieces.drop_last());
        let t = trim(pieces.last());
        if t.len() > 0 {
            rest.push(t)
        } else {
            rest
        }
    }
}

/// The word list read back from its stored text: empty text is no words; otherwise the
/// comma-separated pieces, trimmed, without the empty ones.
pub open spec fn parse_words_spec(s: Seq<char>) -> Seq<Seq<char>> {
    if s.len() == 0 {
        Seq::empty()
    } else {
        clean_words(split_commas(s))
    }
}

/// The stored text of a word list: the words joined with `,` (`[String]::join(",")`).
pub open spec fn join_words_spec(words: Seq<Seq<char>>) -> Seq<char>
    decreases words.len(),
{
    if words.len() == 0 {
        Seq::empty()
    } else if words.len() == 1 {
        words[0]
    } else {
        join_words_spec(words.drop_last()) + seq![','] + words.last()
    }
}

/// Reads a stored sensitive-word list.
pub fn parse_sensitive_words(s: &str) -> (res: Vec<String>)
    ensures
        views(res@) == parse_words_spec(s@),
{
    let chars = chars_of(s);
    let mut res: Vec<String> = Vec::new();
    if chars.len() == 0 {
        assert(views(res@) =~= Seq::<Seq<char>>::empty());
        return res;
    }
    let mut cur: Vec<char> = Vec::new();
    let mut i: usize = 0;
    while i < chars.len()
        invariant
            i <= chars@.len(),
            chars@ == s@,
            split_scan(chars@.take(i as int), ',').1 == cur@,
            views(res@) == clean_words(split_scan(chars@.take(i as int), ',').0),
        decreases chars@.len() - i,
    {
        let c = chars[i];
        let ghost prefix = chars@.take(i + 1);
        assert(prefix.drop_last() =~= chars@.take(i as int));
        if c == ',' {
            let t = trim_chars(&cur);
            if t.len() > 0 {
                res.push(string_of(t.as_slice()));
            }
            proof {
                let done = split_scan(chars@.take(i as int), ',').0;
                assert(split_scan(prefix, ',').0 == done.push(cur@));
                assert(done.push(cur@).drop_last() =~= done);
                assert(views(res@) =~= clean_words(done.push(cur@)));
            }
            cur = Vec::new();
        } else {
            cur.push(c);
        }
        i += 1;
    }
    let t = trim_chars(&cur);
    if t.len() > 0 {
        res.push(string_of(t.as_slice()));
    }
    proof {
        assert(chars@.take(chars@.len() as int) =~= chars@);
        let done = split_scan(chars@, ',').0;
        assert(done.push(cur@).drop_last() =~= done);
        assert(views(res@) =~= clean_words(done.push(cur@)));
    }
    res
}

/// Writes a sensitive-word list in its stored form.
pub fn join_sensitive_words(words: &[String]) -> (res: String)
    ensures
        res@ == join_words_spec(views(words@)),
{
    let mut out: Vec<char> = Vec::new();
    let mut i: usize = 0;
    while i < words.len()
        invariant
            i <= words@.len(),
            out@ == join_words_spec(views(words@).take(i as int)),
        decreases words@.len() - i,
    {
        let ghost ws = views(words@).take(i + 1);
        assert(ws.drop_last() =~= views(words@).take(i as int));
        if i > 0 {
            out.push(',');
        }
        let w = chars_of(words[i].as_str());
        extend_chars(&mut out, &w);
        proof {
            if i == 0 {
                assert(out@ =~= ws[0]);
            }
        }
        i += 1;
    }
    assert(views(words@).take(words@.len() as int) =~= views(words@));
    string_of(out.as_slice())
}

// ── Read-after-write law ──

/// A word that survives storage unchanged: non-empty, no comma, no surrounding whitespace.
pub open spec fn storable_word(w: Seq<char>) -> bool {
    &&& w.len() > 0
    &&& forall|i: int| 0 <= i < w.len() ==> w[i] != ','
    &&& !is_ws(w[0])
    &&& !is_ws(w.last())
}

proof fn lemma_split_scan_no_comma(a: Seq<char>, b: Seq<char>)
    requires
        forall|i: int| 0 <= i < b.len() ==> b[i] != ',',
    ensures
        split_scan(a + b, ',') == (split_scan(a, ',').0, split_scan(a, ',').1 + b),
    decreases b.len(),
{
    if b.len() == 0 {
        assert(a + b =~= a);
        assert(split_scan(a, ',').1 + b =~= split_scan(a, ',').1);
    } else {
        lemma_split_scan_no_comma(a, b.drop_last());
        assert((a + b).drop_last() =~= a + b.drop_last());
        assert((a + b).last() == b.last());
        assert(split_scan(a, ',').1 + b.drop_last() + seq![b.last()] =~= split_scan(a, ',').1 + b);
    }
}

proof fn lemma_split_join(words: Seq<Seq<char>>)
    requires
        words.len() > 0,
        forall|k: int| 0 <= k < words.len() ==> storable_word(#[trigger] words[k]),
    ensures
        split_commas(join_words_spec(words)) == words,
    decreases words.len(),
{
    let w = words.last();
    assert(storable_word(words[words.len() - 1]));
    if words.len() == 1 {
        lemma_split_scan_no_comma(Seq::empty(), w);
        assert(Seq::<char>::empty() + w =~= w);
        assert(split_scan(Seq::<char>::empty(), ',') == (Seq::<Seq<char>>::empty(), Seq::<char>::empty()));
        assert(Seq::<char>::empty() + w =~= w);
        assert(split_commas(w) =~= seq![w]);
        assert(words =~= seq![w]);
    } else {
        let init = words.drop_last();
        assert forall|k: int| 0 <= k < init.len() implies storable_word(#[trigger] init[k]) by {
            assert(init[k] == words[k]);
        }
        lemma_split_join(init);
        let j = join_words_spec(init);
        let jc = j + seq![','];
        assert(jc.drop_last() =~= j);
        assert(split_scan(jc, ',') == (split_scan(j, ',').0.push(split_scan(j, ',').1), Seq::<char>::empty()));
        lemma_split_scan_no_comma(jc, w);
        assert(Seq::<char>::empty() + w =~= w);
        assert(split_commas(j) == init);
        assert(split_commas(join_words_spec(words)) =~= init.push(w));
        assert(init.push(w) =~= words);
    }
}

proof fn lemma_clean_storable(words: Seq<Seq<char>>)
    requires
        forall|k: int| 0 <= k < words.len() ==> storable_word(#[trigger] words[k]),
    ensures
        clean_words(words) == words,
    decreases words.len(),
{
    if words.len() > 0 {
        let init = words.drop_last();
        assert forall|k: int| 0 <= k < init.len() implies storable_word(#[trigger] init[k]) by {
            assert(init[k] == words[k]);
        }
        lemma_clean_storable(init);
        assert(storable_word(words[words.len() - 1]));
        lemma_trim_noop(words.last());
        assert(init.push(words.last()) =~= words);
    }
}

/// Storing a list of storable words and reading it back gives the same list.
pub proof fn lemma_words_roundtrip(words: Seq<Seq<char>>)
    requires
        forall|k: int| 0 <= k < words.len() ==> storable_word(#[trigger] words[k]),
    ensures
        parse_words_spec(join_words_spec(words)) == words,
{
    if words.len() == 0 {
        assert(parse_words_spec(Seq::empty()) =~= words);
    } else {
        lemma_split_join(words);
        lemma_clean_storable(words);
        assert(storable_word(words[0]));
        lemma_join_nonempty(words);
    }
}

proof fn lemma_join_nonempty(words: Seq<Seq<char>>)
    requires
        words.len() > 0,
        words[0].len() > 0,
    ensures
        join_words_spec(words).len() > 0,
    decreases words.len(),
{
    if words.len() > 1 {
        lemma_join_nonempty(words.drop_last());
    }
}


// ── New comments ──

/// How a new comment is filed once admitted: its moderation status and the message shown.
#[derive(Clone, Debug)]
pub struct CommentAdmission {
    pub moderation_status: String,
    pub message: String,
}

/// Whether `r` files a comment as `status` with message `msg`.
pub open spec fn admitted_as(r: Result<CommentAdmission, Refusal>, status: Seq<char>, msg: Seq<char>) -> bool {
    r matches Ok(a) && a.moderation_status@ == status && a.message@ == msg
}

/// Admission of a new comment: refused while comments are disabled, refused (naming the
/// words) when the body contains sensitive words, otherwise filed for review under
/// pre-moderation and posted at once without it.
pub fn admit_comment(config: &ModerationConfig, body: &str) -> (r: Result<CommentAdmission, Refusal>)
    ensures
        !config.comments_enabled ==> refused_with(r, 403, "Comments are currently disabled"@),
        config.comments_enabled && matched_words(lowercase(body@), views(config.sensitive_words@)).len() > 0
            ==> refused_with(r, 400, "Comment contains disallowed words: "@
                + join_with(matched_words(lowercase(body@), views(config.sensitive_words@)), ", "@)),
        config.comments_enabled && matched_words(lowercase(body@), views(config.sensitive_words@)).len() == 0
            ==> (if config.require_pre_moderation {
                admitted_as(r, "pending_review"@, "Comment submitted for moderation review"@)
            } else {
                admitted_as(r, "approved"@, "Comment posted"@)
            }),
{
    if !config.comments_enabled {
        return Err(refusal(403, "Comments are currently disabled"));
    }
    let matched = check_sensitive_words(body, config.sensitive_words.as_slice());
    if matched.len() > 0 {
        let listed = join_strings(matched.as_slice(), ", ");
        let msg = concat("Comment contains disallowed words: ", listed.as_str());
        return Err(Refusal { status: 400, error: msg });
    }
    if config.require_pre_moderation {
        Ok(CommentAdmission {
            moderation_status: String::from_str("pending_review"),
            message: String::from_str("Comment submitted for moderation review"),
        })
    } else {
        Ok(CommentAdmission {
            moderation_status: String::from_str("approved"),
            message: String::from_str("Comment posted"),
        })
    }
}

} // verus!
