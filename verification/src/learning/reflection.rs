//! Post-turn reflection engine — the decisions and text processing around
//! the reflection LLM call: which turns qualify, per-session throttling,
//! prompt construction, recovery of the JSON object from the model's reply,
//! heuristic reflection-cue detection, and the memory writes a reflection
//! produces. The LLM call and the memory store are the caller's I/O.

use vstd::prelude::*;
use crate::text::{
    is_alphanumeric, unicode_alphanumeric,
    ascii_lower, chars_of, contains, contains_seq, is_blank, lower_ascii, owned, push_char, push_str,
    seq_eq, string_of, trim, trim_bounds, string_of_range, u64_to_string, decimal,
};

verus! {

/// Memory namespace + custom-category tag for explicit user reflections.
pub const REFLECTIONS_NAMESPACE: &'static str = "learning_reflections";

// ── truncate ────────────────────────────────────────────────────────────

/// `s` cut to `max` characters, with `...` appended when it was longer.
pub open spec fn spec_truncate(s: Seq<char>, max: nat) -> Seq<char> {
    if s.len() <= max {
        s
    } else {
        s.take(max as int) + "..."@
    }
}

/// Cut `s` to at most `max` characters, appending `...` when cut.
pub fn truncate(s: &str, max: usize) -> (r: String)
    ensures
        r@ == spec_truncate(s@, max as nat),
{
    let v = chars_of(s);
    if v.len() <= max {
        owned(s)
    } else {
        let mut r = string_of_range(&v, 0, max);
        push_str(&mut r, "...");
        r
    }
}

// ── slugify ─────────────────────────────────────────────────────────────

/// The slug character for `c`, if it keeps one: alphanumerics lower-cased
/// (ASCII), space/`-`/`_` as `_`, everything else dropped.
pub open spec fn slug_char(c: char) -> Option<char> {
    if unicode_alphanumeric(c) {
        Some(crate::text::ascii_lower_char(c))
    } else if c == ' ' || c == '-' || c == '_' {
        Some('_')
    } else {
        None
    }
}

/// The slug characters of `s`, before the length cap.
pub open spec fn slug_chars(s: Seq<char>) -> Seq<char>
    decreases s.len(),
{
    if s.len() == 0 {
        Seq::empty()
    } else {
        let rest = slug_chars(s.drop_last());
        match slug_char(s.last()) {
            Some(c) => rest.push(c),
            None => rest,
        }
    }
}

/// Maximum slug length.
pub const SLUG_MAX: usize = 40;

/// The slug of `s`: its slug characters, at most 40 of them.
pub open spec fn spec_slugify(s: Seq<char>) -> Seq<char> {
    let c = slug_chars(s);
    if c.len() <= SLUG_MAX {
        c
    } else {
        c.take(SLUG_MAX as int)
    }
}

/// A memory-key slug of `s`.
pub fn slugify(s: &str) -> (r: String)
    ensures
        r@ == spec_slugify(s@),
{
    let v = chars_of(s);
    let mut out: Vec<char> = Vec::new();
    let mut i: usize = 0;
    while i < v.len()
        invariant
            i <= v@.len(),
            out@ == slug_chars(v@.take(i as int)),
        decreases v@.len() - i,
    {
        let c = v[i];
        proof {
            assert(v@.take(i + 1).drop_last() =~= v@.take(i as int));
        }
        if is_alphanumeric(c) {
            out.push(crate::text::lower_ascii_char(c));
        } else if c == ' ' || c == '-' || c == '_' {
            out.push('_');
        }
        i = i + 1;
    }
    assert(v@.take(v@.len() as int) =~= v@);
    if out.len() <= SLUG_MAX {
        string_of(&out)
    } else {
        string_of_range(&out, 0, SLUG_MAX)
    }
}

// ── sentence splitting and cue detection ───────────────────────────────

/// Sentence terminators.
pub open spec fn is_sentence_end(c: char) -> bool {
    c == '.' || c == '!' || c == '?' || c == '\n'
}

/// The sentence held in `buf`, if it is not blank.
pub open spec fn flush(buf: Seq<char>) -> Seq<Seq<char>> {
    if is_blank(buf) {
        Seq::empty()
    } else {
        seq![trim(buf)]
    }
}

/// The trimmed, non-blank sentences of `s`, given the partial sentence `buf`
/// already read.
pub open spec fn sentences_from(s: Seq<char>, buf: Seq<char>) -> Seq<Seq<char>>
    decreases s.len(),
{
    if s.len() == 0 {
        flush(buf)
    } else if is_sentence_end(s[0]) {
        flush(buf) + sentences_from(s.drop_first(), Seq::empty())
    } else {
        sentences_from(s.drop_first(), buf.push(s[0]))
    }
}

/// The sentences of `text`: split on `.`, `!`, `?` and newlines, trimmed,
/// blank ones dropped.
pub open spec fn spec_split_sentences(text: Seq<char>) -> Seq<Seq<char>> {
    sentences_from(text, Seq::empty())
}

/// The views of a vector of strings.
pub open spec fn views(v: Seq<String>) -> Seq<Seq<char>> {
    v.map_values(|s: String| s@)
}

fn flush_into(out: &mut Vec<String>, buf: &Vec<char>)
    ensures
        views(final(out)@) == views(old(out)@) + flush(buf@),
{
    let (a, b) = trim_bounds(buf);
    if a < b {
        let s = string_of_range(buf, a, b);
        out.push(s);
        proof {
            assert(views(final(out)@) =~= views(old(out)@) + flush(buf@));
        }
    } else {
        proof {
            assert(is_blank(buf@));
            assert(views(final(out)@) =~= views(old(out)@) + flush(buf@));
        }
    }
}

/// Split free text into sentence-shaped chunks on `.`, `!`, `?`, and newlines.
pub fn split_sentences(text: &str) -> (r: Vec<String>)
    ensures
        views(r@) == spec_split_sentences(text@),
{
    let v = chars_of(text);
    let n = v.len();
    let mut out: Vec<String> = Vec::new();
    let mut buf: Vec<char> = Vec::new();
    let mut i: usize = 0;
    assert(v@.subrange(0, n as int) =~= v@);
    while i < n
        invariant
            n == v@.len(),
            i <= n,
            views(out@) + sentences_from(v@.subrange(i as int, n as int), buf@) == spec_split_sentences(v@),
        decreases n - i,
    {
        let c = v[i];
        let ghost rest = v@.subrange(i as int, n as int);
        proof {
            assert(rest.drop_first() =~= v@.subrange(i + 1, n as int));
            assert(rest[0] == c);
        }
        if c == '.' || c == '!' || c == '?' || c == '\n' {
            let ghost before = views(out@);
            let ghost old_buf = buf@;
            flush_into(&mut out, &buf);
            buf = Vec::new();
            proof {
                let r1 = v@.subrange(i + 1, n as int);
                assert(sentences_from(rest, old_buf) == flush(old_buf) + sentences_from(r1, Seq::empty()));
                assert(buf@ =~= Seq::<char>::empty());
                assert(views(out@) + sentences_from(r1, buf@) =~= before + (flush(old_buf) + sentences_from(r1, Seq::empty())));
            }
        } else {
            buf.push(c);
        }
        i = i + 1;
    }
    flush_into(&mut out, &buf);
    proof {
        assert(v@.subrange(n as int, n as int).len() == 0);
        assert(views(out@) =~= spec_split_sentences(v@));
    }
    out
}

/// The phrases that mark an explicit reflection.
pub open spec fn is_cue(c: Seq<char>) -> bool {
    c == "i realized"@ || c == "i realised"@ || c == "i learned"@ || c == "i learnt"@ || c
        == "i've decided"@ || c == "i have decided"@ || c == "going forward"@ || c
        == "from now on"@ || c == "remember that i"@ || c == "remember i"@ || c
        == "please remember"@ || c == "i want you to remember"@
}

/// The sentence holds a reflection cue (compared in ASCII lower case).
pub open spec fn has_cue(sentence: Seq<char>) -> bool {
    exists|c: Seq<char>| is_cue(c) && contains(ascii_lower(sentence), c)
}

/// The distinct trimmed cue sentences among `sents`, in first-seen order.
pub open spec fn cue_hits(sents: Seq<Seq<char>>) -> Seq<Seq<char>>
    decreases sents.len(),
{
    if sents.len() == 0 {
        Seq::empty()
    } else {
        let prev = cue_hits(sents.drop_last());
        let s = sents.last();
        if has_cue(s) && !is_blank(s) && !prev.contains(trim(s)) {
            prev.push(trim(s))
        } else {
            prev
        }
    }
}

/// The reflection cues of a user message.
pub open spec fn spec_extract_cues(msg: Seq<char>) -> Seq<Seq<char>> {
    cue_hits(spec_split_sentences(msg))
}

fn sentence_has_cue(s: &str) -> (b: bool)
    ensures
        b == has_cue(s@),
{
    let v = chars_of(s);
    let lower = lower_ascii(&v);
    let cues: [&str; 12] = [
        "i realized",
        "i realised",
        "i learned",
        "i learnt",
        "i've decided",
        "i have decided",
        "going forward",
        "from now on",
        "remember that i",
        "remember i",
        "please remember",
        "i want you to remember",
    ];
    let mut k: usize = 0;
    while k < 12
        invariant
            k <= 12,
            lower@ == ascii_lower(s@),
            cues@ == seq![
                "i realized",
                "i realised",
                "i learned",
                "i learnt",
                "i've decided",
                "i have decided",
                "going forward",
                "from now on",
                "remember that i",
                "remember i",
                "please remember",
                "i want you to remember",
            ],
            forall|j: int| 0 <= j < k ==> !contains(ascii_lower(s@), #[trigger] cues@[j]@),
        decreases 12 - k,
    {
        let c = chars_of(cues[k]);
        if contains_seq(&lower, &c) {
            assert(is_cue(cues@[k as int]@));
            return true;
        }
        k = k + 1;
    }
    proof {
        assert forall|c: Seq<char>| is_cue(c) implies !contains(ascii_lower(s@), c) by {
            assert(c == cues@[0]@ || c == cues@[1]@ || c == cues@[2]@ || c == cues@[3]@ || c == cues@[4]@
                || c == cues@[5]@ || c == cues@[6]@ || c == cues@[7]@ || c == cues@[8]@ || c == cues@[9]@
                || c == cues@[10]@ || c == cues@[11]@);
        }
    }
    false
}

fn contains_string(v: &Vec<String>, s: &String) -> (b: bool)
    ensures
        b == views(v@).contains(s@),
{
    let mut i: usize = 0;
    while i < v.len()
        invariant
            i <= v@.len(),
            forall|j: int| 0 <= j < i ==> v@[j]@ != s@,
        decreases v@.len() - i,
    {
        let a = chars_of(v[i].as_str());
        let b = chars_of(s.as_str());
        if seq_eq(&a, &b) {
            assert(views(v@)[i as int] == s@);
            return true;
        }
        i = i + 1;
    }
    proof {
        if views(v@).contains(s@) {
            let j = choose|j: int| 0 <= j < views(v@).len() && views(v@)[j] == s@;
            assert(v@[j]@ == s@);
        }
    }
    false
}

/// Heuristic detector for explicit reflection cues in a user message.
///
/// Returns the trimmed sentences of `user_message` that contain a known
/// reflection cue ("I realized", "going forward", "remember that I", ...),
/// each once, in order of first appearance.
pub fn extract_reflection_cues(user_message: &str) -> (hits: Vec<String>)
    ensures
        views(hits@) == spec_extract_cues(user_message@),
{
    let sentences = split_sentences(user_message);
    let mut hits: Vec<String> = Vec::new();
    let mut i: usize = 0;
    while i < sentences.len()
        invariant
            i <= sentences@.len(),
            views(sentences@) == spec_split_sentences(user_message@),
            views(hits@) == cue_hits(views(sentences@).take(i as int)),
        decreases sentences@.len() - i,
    {
        let s = &sentences[i];
        proof {
            assert(views(sentences@).take(i + 1).drop_last() =~= views(sentences@).take(i as int));
            assert(views(sentences@).take(i + 1).last() == s@);
        }
        if sentence_has_cue(s.as_str()) {
            let v = chars_of(s.as_str());
            let (a, b) = trim_bounds(&v);
            if a < b {
                let t = string_of_range(&v, a, b);
                if !contains_string(&hits, &t) {
                    hits.push(t);
                    proof {
                        assert(views(hits@) =~= cue_hits(views(sentences@).take(i + 1)));
                    }
                }
            }
        }
        i = i + 1;
    }
    assert(views(sentences@).take(sentences@.len() as int) =~= views(sentences@));
    hits
}

/// Laws of cue extraction: every hit carries a cue, no hit is blank, and no
/// hit appears twice.
pub proof fn law_cue_hits(sents: Seq<Seq<char>>)
    ensures
        forall|i: int| 0 <= i < cue_hits(sents).len() ==> exists|j: int| 0 <= j < sents.len() && has_cue(sents[j]) && #[trigger] cue_hits(sents)[i] == trim(sents[j]),
        forall|i: int, j: int| 0 <= i < j < cue_hits(sents).len() ==> cue_hits(sents)[i] != cue_hits(sents)[j],
    decreases sents.len(),
{
    if sents.len() > 0 {
        law_cue_hits(sents.drop_last());
        let prev = cue_hits(sents.drop_last());
        assert forall|i: int| 0 <= i < cue_hits(sents).len() implies exists|j: int| 0 <= j < sents.len() && has_cue(sents[j]) && #[trigger] cue_hits(sents)[i] == trim(sents[j]) by {
            if i < prev.len() {
                let j = choose|j: int| 0 <= j < sents.drop_last().len() && has_cue(sents.drop_last()[j]) && prev[i] == trim(sents.drop_last()[j]);
                assert(sents[j] == sents.drop_last()[j]);
            } else {
                assert(sents[sents.len() - 1] == sents.last());
            }
        }
    }
}



/// The cue phrases: a sentence holds a cue exactly when its ASCII
/// lower-case form contains one of the twelve phrases.
pub proof fn law_cue_phrases(sentence: Seq<char>)
    ensures
        has_cue(sentence) <==> ({
            let l = ascii_lower(sentence);
            contains(l, "i realized"@) || contains(l, "i realised"@) || contains(l, "i learned"@) || contains(
                l,
                "i learnt"@,
            ) || contains(l, "i've decided"@) || contains(l, "i have decided"@) || contains(l, "going forward"@)
                || contains(l, "from now on"@) || contains(l, "remember that i"@) || contains(l, "remember i"@)
                || contains(l, "please remember"@) || contains(l, "i want you to remember"@)
        }),
{
    let l = ascii_lower(sentence);
    if contains(l, "i realized"@) { assert(is_cue("i realized"@)); }
    if contains(l, "i realised"@) { assert(is_cue("i realised"@)); }
    if contains(l, "i learned"@) { assert(is_cue("i learned"@)); }
    if contains(l, "i learnt"@) { assert(is_cue("i learnt"@)); }
    if contains(l, "i've decided"@) { assert(is_cue("i've decided"@)); }
    if contains(l, "i have decided"@) { assert(is_cue("i have decided"@)); }
    if contains(l, "going forward"@) { assert(is_cue("going forward"@)); }
    if contains(l, "from now on"@) { assert(is_cue("from now on"@)); }
    if contains(l, "remember that i"@) { assert(is_cue("remember that i"@)); }
    if contains(l, "remember i"@) { assert(is_cue("remember i"@)); }
    if contains(l, "please remember"@) { assert(is_cue("please remember"@)); }
    if contains(l, "i want you to remember"@) { assert(is_cue("i want you to remember"@)); }
}

proof fn lemma_cue_hits_keep(sents: Seq<Seq<char>>, k: int)
    requires
        0 <= k < sents.len(),
        has_cue(sents[k]),
        !is_blank(sents[k]),
    ensures
        cue_hits(sents).contains(trim(sents[k])),
    decreases sents.len(),
{
    let prev = cue_hits(sents.drop_last());
    if k < sents.len() - 1 {
        assert(sents.drop_last()[k] == sents[k]);
        lemma_cue_hits_keep(sents.drop_last(), k);
        let j = choose|j: int| 0 <= j < prev.len() && prev[j] == trim(sents[k]);
        if !(has_cue(sents.last()) && !is_blank(sents.last()) && !prev.contains(trim(sents.last()))) {
        } else {
            assert(cue_hits(sents)[j] == prev[j]);
        }
    } else {
        if prev.contains(trim(sents[k])) {
            let j = choose|j: int| 0 <= j < prev.len() && prev[j] == trim(sents[k]);
            assert(cue_hits(sents)[j] == prev[j]);
        } else {
            assert(cue_hits(sents)[prev.len() as int] == trim(sents[k]));
        }
    }
}

/// Every cue is found. A non-blank sentence of a message whose ASCII
/// lower-case form contains one of the phrases `i realized`, `i realised`,
/// `i learned`, `i learnt`, `i've decided`, `i have decided`, `going
/// forward`, `from now on`, `remember that i`, `remember i`, `please
/// remember` or `i want you to remember` is among the message's cues,
/// trimmed. And only such sentences are: a sentence holds a cue only when
/// it contains one of these phrases.
pub proof fn law_cues_complete(msg: Seq<char>, k: int)
    requires
        0 <= k < spec_split_sentences(msg).len(),
        !is_blank(spec_split_sentences(msg)[k]),
        ({
            let l = ascii_lower(spec_split_sentences(msg)[k]);
            contains(l, "i realized"@) || contains(l, "i realised"@) || contains(l, "i learned"@) || contains(
                l,
                "i learnt"@,
            ) || contains(l, "i've decided"@) || contains(l, "i have decided"@) || contains(l, "going forward"@)
                || contains(l, "from now on"@) || contains(l, "remember that i"@) || contains(l, "remember i"@)
                || contains(l, "please remember"@) || contains(l, "i want you to remember"@)
        }),
    ensures
        spec_extract_cues(msg).contains(trim(spec_split_sentences(msg)[k])),
{
    law_cue_phrases(spec_split_sentences(msg)[k]);
    lemma_cue_hits_keep(spec_split_sentences(msg), k);
}


// ── throttling ──────────────────────────────────────────────────────────

/// Per-session reflection counts, each capped at `max_per_session`.
pub struct SessionCounts {
    max_per_session: usize,
    counts: Vec<(String, usize)>,
}

impl SessionCounts {
    /// The cap.
    pub closed spec fn max(&self) -> nat {
        self.max_per_session as nat
    }

    /// The count of session `key` (0 when the session is unknown).
    pub closed spec fn count(&self, key: Seq<char>) -> nat {
        if exists|i: int| 0 <= i < self.counts@.len() && self.counts@[i].0@ == key {
            self.counts@[choose|i: int| 0 <= i < self.counts@.len() && self.counts@[i].0@ == key].1 as nat
        } else {
            0
        }
    }

    /// Session keys are distinct and no count exceeds the cap.
    #[verifier::type_invariant]
    closed spec fn wf(&self) -> bool {
        &&& forall|i: int, j: int| 0 <= i < j < self.counts@.len() ==> self.counts@[i].0@ != self.counts@[j].0@
        &&& forall|i: int| 0 <= i < self.counts@.len() ==> #[trigger] self.counts@[i].1 <= self.max_per_session
    }

    /// No session has reflected yet.
    pub fn new(max_per_session: usize) -> (r: Self)
        ensures
            r.max() == max_per_session,
            forall|k: Seq<char>| r.count(k) == 0,
    {
        SessionCounts { max_per_session, counts: Vec::new() }
    }

    fn find(&self, key: &str) -> (r: Option<usize>)
        ensures
            match r {
                Some(i) => i < self.counts@.len() && self.counts@[i as int].0@ == key@,
                None => forall|i: int| 0 <= i < self.counts@.len() ==> self.counts@[i].0@ != key@,
            },
    {
        let mut i: usize = 0;
        while i < self.counts.len()
            invariant
                i <= self.counts@.len(),
                forall|j: int| 0 <= j < i ==> self.counts@[j].0@ != key@,
            decreases self.counts@.len() - i,
        {
            if crate::text::str_eq(self.counts[i].0.as_str(), key) {
                return Some(i);
            }
            i = i + 1;
        }
        None
    }

    /// Count one more reflection for `key` if it is under the cap; returns
    /// whether it was.
    pub fn try_increment(&mut self, key: &str) -> (ok: bool)
        ensures
            ok == (old(self).count(key@) < old(self).max()),
            final(self).count(key@) == if ok { old(self).count(key@) + 1 } else { old(self).count(key@) },
            final(self).count(key@) <= final(self).max(),
            final(self).max() == old(self).max(),
            forall|k: Seq<char>| k != key@ ==> final(self).count(k) == old(self).count(k),
    {
        proof {
            use_type_invariant(&*self);
        }
        let ghost old_self = *self;
        match self.find(key) {
            Some(i) => {
                let c = self.counts[i].1;
                if c >= self.max_per_session {
                    assert(self.counts@[i as int].1 <= self.max_per_session);
                    return false;
                }
                let mut v = Vec::new();
                std::mem::swap(&mut v, &mut self.counts);
                let name = owned(key);
                v.set(i, (name, c + 1));
                proof {
                    assert forall|a: int, b: int| 0 <= a < b < v@.len() implies v@[a].0@ != v@[b].0@ by {
                        if a != i {
                            assert(v@[a] == old_self.counts@[a]);
                        }
                        if b != i {
                            assert(v@[b] == old_self.counts@[b]);
                        }
                    }
                    assert forall|a: int| 0 <= a < v@.len() implies #[trigger] v@[a].1 <= self.max_per_session by {
                        if a != i {
                            assert(v@[a] == old_self.counts@[a]);
                        }
                    }
                }
                self.counts = v;
                proof {
                    assert(self.counts@[i as int].0@ == key@);
                    assert forall|k: Seq<char>| k != key@ implies self.count(k) == old_self.count(k) by {
                        if exists|j: int| 0 <= j < self.counts@.len() && self.counts@[j].0@ == k {
                            let j = choose|j: int| 0 <= j < self.counts@.len() && self.counts@[j].0@ == k;
                            assert(old_self.counts@[j] == self.counts@[j]);
                        }
                        if exists|j: int| 0 <= j < old_self.counts@.len() && old_self.counts@[j].0@ == k {
                            let j = choose|j: int| 0 <= j < old_self.counts@.len() && old_self.counts@[j].0@ == k;
                            assert(old_self.counts@[j] == self.counts@[j]);
                        }
                    }
                }
                true
            },
            None => {
                if self.max_per_session == 0 {
                    return false;
                }
                let mut v = Vec::new();
                std::mem::swap(&mut v, &mut self.counts);
                let name = owned(key);
                v.push((name, 1));
                proof {
                    let n = old_self.counts@.len() as int;
                    assert forall|a: int, b: int| 0 <= a < b < v@.len() implies v@[a].0@ != v@[b].0@ by {
                        assert(v@[a] == old_self.counts@[a]);
                        if b < n {
                            assert(v@[b] == old_self.counts@[b]);
                        }
                    }
                    assert forall|a: int| 0 <= a < v@.len() implies #[trigger] v@[a].1 <= self.max_per_session by {
                        if a < n {
                            assert(v@[a] == old_self.counts@[a]);
                        }
                    }
                }
                self.counts = v;
                proof {
                    let n = old_self.counts@.len() as int;
                    assert(self.counts@[n].0@ == key@);
                    assert forall|k: Seq<char>| k != key@ implies self.count(k) == old_self.count(k) by {
                        if exists|j: int| 0 <= j < self.counts@.len() && self.counts@[j].0@ == k {
                            let j = choose|j: int| 0 <= j < self.counts@.len() && self.counts@[j].0@ == k;
                            assert(j != n);
                            assert(old_self.counts@[j] == self.counts@[j]);
                        }
                        if exists|j: int| 0 <= j < old_self.counts@.len() && old_self.counts@[j].0@ == k {
                            let j = choose|j: int| 0 <= j < old_self.counts@.len() && old_self.counts@[j].0@ == k;
                            assert(old_self.counts@[j] == self.counts@[j]);
                        }
                    }
                }
                true
            },
        }
    }

    /// Give back one counted reflection for `key` (after a failed
    /// reflection); never goes below zero.
    pub fn rollback_increment(&mut self, key: &str)
        ensures
            final(self).count(key@) == if old(self).count(key@) > 0 { old(self).count(key@) - 1 } else { 0 },
            final(self).max() == old(self).max(),
            forall|k: Seq<char>| k != key@ ==> final(self).count(k) == old(self).count(k),
    {
        proof {
            use_type_invariant(&*self);
        }
        let ghost old_self = *self;
        match self.find(key) {
            Some(i) => {
                let c = self.counts[i].1;
                let nc = if c > 0 { c - 1 } else { 0 };
                let mut v = Vec::new();
                std::mem::swap(&mut v, &mut self.counts);
                let name = owned(key);
                v.set(i, (name, nc));
                proof {
                    assert forall|a: int, b: int| 0 <= a < b < v@.len() implies v@[a].0@ != v@[b].0@ by {
                        if a != i {
                            assert(v@[a] == old_self.counts@[a]);
                        }
                        if b != i {
                            assert(v@[b] == old_self.counts@[b]);
                        }
                    }
                    assert forall|a: int| 0 <= a < v@.len() implies #[trigger] v@[a].1 <= self.max_per_session by {
                        if a != i {
                            assert(v@[a] == old_self.counts@[a]);
                        } else {
                            assert(old_self.counts@[a].1 <= self.max_per_session);
                        }
                    }
                }
                self.counts = v;
                proof {
                    assert(self.counts@[i as int].0@ == key@);
                    assert forall|k: Seq<char>| k != key@ implies self.count(k) == old_self.count(k) by {
                        if exists|j: int| 0 <= j < self.counts@.len() && self.counts@[j].0@ == k {
                            let j = choose|j: int| 0 <= j < self.counts@.len() && self.counts@[j].0@ == k;
                            assert(old_self.counts@[j] == self.counts@[j]);
                        }
                        if exists|j: int| 0 <= j < old_self.counts@.len() && old_self.counts@[j].0@ == k {
                            let j = choose|j: int| 0 <= j < old_self.counts@.len() && old_self.counts@[j].0@ == k;
                            assert(old_self.counts@[j] == self.counts@[j]);
                        }
                    }
                }
            },
            None => {},
        }
    }
}


// ── qualifying turns ────────────────────────────────────────────────────

/// Where the reflection LLM call goes.
#[derive(Debug, Clone, Copy, PartialEq, Eq, Structural)]
pub enum ReflectionSource {
    Local,
    Cloud,
}

/// The learning settings that drive reflection.
#[derive(Debug, Clone, Copy, PartialEq, Eq, Structural)]
pub struct LearningConfig {
    pub enabled: bool,
    pub reflection_enabled: bool,
    pub min_turn_complexity: usize,
    pub max_reflections_per_session: usize,
    pub reflection_source: ReflectionSource,
}

/// One tool call of a completed turn.
pub struct ToolCallRecord {
    pub name: String,
    pub success: bool,
    pub duration_ms: u64,
    pub output_summary: String,
}

/// What the reflection looks at of a completed turn.
pub struct TurnContext {
    pub user_message: String,
    pub assistant_response: String,
    pub tool_calls: Vec<ToolCallRecord>,
    pub turn_duration_ms: u64,
    pub iteration_count: u64,
    pub session_id: Option<String>,
}

/// Responses longer than this many characters qualify a turn on their own.
pub const LONG_RESPONSE_CHARS: usize = 500;

/// A turn qualifies for reflection when learning and reflection are on and
/// it either made at least `min_turn_complexity` tool calls or produced a
/// response of more than 500 characters.
pub open spec fn spec_should_reflect(cfg: LearningConfig, tool_count: nat, response_chars: nat) -> bool {
    cfg.enabled && cfg.reflection_enabled && (tool_count >= cfg.min_turn_complexity || response_chars
        > LONG_RESPONSE_CHARS)
}

/// Whether a completed turn warrants reflection (complexity check only).
pub fn should_reflect(cfg: &LearningConfig, ctx: &TurnContext) -> (b: bool)
    ensures
        b == spec_should_reflect(*cfg, ctx.tool_calls@.len(), ctx.assistant_response@.len()),
{
    if !cfg.enabled || !cfg.reflection_enabled {
        return false;
    }
    let tool_count = ctx.tool_calls.len();
    let response_long = ctx.assistant_response.as_str().unicode_len() > LONG_RESPONSE_CHARS;
    tool_count >= cfg.min_turn_complexity || response_long
}

/// The throttling key of a turn: its session id, or `__global__`.
pub fn session_key(ctx: &TurnContext) -> (k: String)
    ensures
        k@ == match ctx.session_id {
            Some(s) => s@,
            None => "__global__"@,
        },
{
    match &ctx.session_id {
        Some(s) => s.clone(),
        None => owned("__global__"),
    }
}

// ── prompt ──────────────────────────────────────────────────────────────

/// The fixed instructions at the head of every reflection prompt.
pub const PROMPT_HEADER: &'static str = "Analyze this completed agent turn and extract learnings.\nReturn a JSON object with these fields:\n- \"observations\": array of strings \u{2014} what worked, what failed, notable patterns\n- \"patterns\": array of strings \u{2014} recurring patterns worth remembering\n- \"user_preferences\": array of strings \u{2014} any user preferences detected\n- \"user_reflections\": array of strings \u{2014} explicit reflections the user made about themselves, their goals, what they want to do differently, or what they want you to remember going forward. Only include statements the user clearly authored as a reflection (\"I realized\u{2026}\", \"remember that I\u{2026}\", \"going forward I want\u{2026}\"). Leave empty if none.\n\nKeep each entry concise (one sentence). Return ONLY valid JSON, no markdown.\n\n";

/// `true` / `false`.
pub open spec fn bool_text(b: bool) -> Seq<char> {
    if b { "true"@ } else { "false"@ }
}

/// The prompt line of one tool call.
pub open spec fn tool_line(t: ToolCallRecord) -> Seq<char> {
    "- "@ + t.name@ + " (success="@ + bool_text(t.success) + ", duration="@ + decimal(t.duration_ms as nat)
        + "ms): "@ + spec_truncate(t.output_summary@, 100) + "\n"@
}

/// The prompt lines of a list of tool calls.
pub open spec fn tool_lines(ts: Seq<ToolCallRecord>) -> Seq<char>
    decreases ts.len(),
{
    if ts.len() == 0 {
        Seq::empty()
    } else {
        tool_lines(ts.drop_last()) + tool_line(ts.last())
    }
}

/// The reflection prompt for a turn.
pub open spec fn spec_prompt(ctx: TurnContext) -> Seq<char> {
    PROMPT_HEADER@ + "## User Message\n"@ + spec_truncate(ctx.user_message@, 500) + "\n\n"@
        + "## Assistant Response\n"@ + spec_truncate(ctx.assistant_response@, 500) + "\n\n"@ + (if ctx.tool_calls@.len() == 0 {
        Seq::empty()
    } else {
        "## Tool Calls\n"@ + tool_lines(ctx.tool_calls@) + "\n"@
    }) + "Turn took "@ + decimal(ctx.turn_duration_ms as nat) + "ms across "@ + decimal(ctx.iteration_count as nat)
        + " iteration(s).\n"@
}

fn tool_line_string(t: &ToolCallRecord) -> (s: String)
    ensures
        s@ == tool_line(*t),
{
    let mut p = owned("- ");
    push_str(&mut p, t.name.as_str());
    push_str(&mut p, " (success=");
    push_str(&mut p, if t.success { "true" } else { "false" });
    push_str(&mut p, ", duration=");
    let d = u64_to_string(t.duration_ms);
    push_str(&mut p, d.as_str());
    push_str(&mut p, "ms): ");
    let sm = truncate(t.output_summary.as_str(), 100);
    push_str(&mut p, sm.as_str());
    push_str(&mut p, "\n");
    assert(p@ =~= tool_line(*t));
    p
}

/// Build the reflection prompt from the turn context.
pub fn build_reflection_prompt(ctx: &TurnContext) -> (p: String)
    ensures
        p@ == spec_prompt(*ctx),
{
    let mut p = owned(PROMPT_HEADER);
    push_str(&mut p, "## User Message\n");
    let um = truncate(ctx.user_message.as_str(), 500);
    push_str(&mut p, um.as_str());
    push_str(&mut p, "\n\n");
    push_str(&mut p, "## Assistant Response\n");
    let ar = truncate(ctx.assistant_response.as_str(), 500);
    push_str(&mut p, ar.as_str());
    push_str(&mut p, "\n\n");
    let ghost before_tools = p@;
    if ctx.tool_calls.len() > 0 {
        push_str(&mut p, "## Tool Calls\n");
        let ghost head = p@;
        let mut i: usize = 0;
        while i < ctx.tool_calls.len()
            invariant
                i <= ctx.tool_calls@.len(),
                p@ == head + tool_lines(ctx.tool_calls@.take(i as int)),
            decreases ctx.tool_calls@.len() - i,
        {
            let t = &ctx.tool_calls[i];
            let ghost before = p@;
            let line = tool_line_string(t);
            push_str(&mut p, line.as_str());
            proof {
                assert(ctx.tool_calls@.take(i + 1).drop_last() =~= ctx.tool_calls@.take(i as int));
                assert(ctx.tool_calls@.take(i + 1).last() == *t);
            }
            i = i + 1;
        }
        proof {
            assert(ctx.tool_calls@.take(ctx.tool_calls@.len() as int) =~= ctx.tool_calls@);
        }
        push_str(&mut p, "\n");
    }
    push_str(&mut p, "Turn took ");
    let td = u64_to_string(ctx.turn_duration_ms);
    push_str(&mut p, td.as_str());
    push_str(&mut p, "ms across ");
    let ic = u64_to_string(ctx.iteration_count);
    push_str(&mut p, ic.as_str());
    push_str(&mut p, " iteration(s).\n");
    proof {
        assert(p@ =~= spec_prompt(*ctx));
    }
    p
}

// ── parsing the reply ───────────────────────────────────────────────────

/// Structured output expected from the reflection LLM call.
#[derive(Debug, Clone, Default)]
pub struct ReflectionOutput {
    pub observations: Vec<String>,
    pub patterns: Vec<String>,
    pub user_preferences: Vec<String>,
    /// Explicit user reflections lifted out of the conversation.
    pub user_reflections: Vec<String>,
}

/// The first `{` and the last `}` of the trimmed reply, when both exist.
pub open spec fn brace_span(t: Seq<char>) -> Option<(int, int)> {
    if (exists|i: int| 0 <= i < t.len() && t[i] == '{') && (exists|j: int| 0 <= j < t.len() && t[j] == '}') {
        let i = choose|i: int| 0 <= i < t.len() && t[i] == '{' && forall|k: int| 0 <= k < i ==> t[k] != '{';
        let j = choose|j: int| 0 <= j < t.len() && t[j] == '}' && forall|k: int| j < k < t.len() ==> t[k] != '}';
        Some((i, j))
    } else {
        None
    }
}

/// The reply is sliceable: no last `}` comes before the first `{`.
pub open spec fn braces_in_order(raw: Seq<char>) -> bool {
    match brace_span(trim(raw)) {
        Some((i, j)) => i <= j,
        None => true,
    }
}

/// The JSON candidate in a reply: from its first `{` to its last `}`
/// (inclusive) when it has both, else the whole trimmed reply.
pub open spec fn spec_json_slice(raw: Seq<char>) -> Seq<char> {
    let t = trim(raw);
    match brace_span(t) {
        Some((i, j)) => t.subrange(i, j + 1),
        None => t,
    }
}

/// Extract the JSON object from the reply (which may carry surrounding text).
pub fn reflection_json_slice(raw: &str) -> (r: String)
    requires
        braces_in_order(raw@),
    ensures
        r@ == spec_json_slice(raw@),
{
    let v = chars_of(raw);
    let (a, b) = trim_bounds(&v);
    let t = string_of_range(&v, a, b);
    let tv = chars_of(t.as_str());
    let open = crate::text::find_first(&tv, '{');
    let close = crate::text::find_last(&tv, '}');
    match (open, close) {
        (Some(i), Some(j)) => {
            proof {
                let i0 = choose|x: int| 0 <= x < tv@.len() && tv@[x] == '{' && forall|k: int| 0 <= k < x ==> tv@[k] != '{';
                let j0 = choose|x: int| 0 <= x < tv@.len() && tv@[x] == '}' && forall|k: int| x < k < tv@.len() ==> tv@[k] != '}';
                assert(i0 == i as int) by {
                    if i0 < i as int {} else if i0 > i as int { assert(tv@[i as int] == '{'); }
                }
                assert(j0 == j as int) by {
                    if j0 > j as int {} else if j0 < j as int { assert(tv@[j as int] == '}'); }
                }
            }
            string_of_range(&tv, i, j + 1)
        },
        _ => t,
    }
}

/// What a reply that is not valid JSON becomes: the trimmed reply as the
/// single observation.
pub open spec fn is_fallback_of(o: ReflectionOutput, raw: Seq<char>) -> bool {
    &&& views(o.observations@) == seq![trim(raw)]
    &&& o.patterns@.len() == 0
    &&& o.user_preferences@.len() == 0
    &&& o.user_reflections@.len() == 0
}

/// The reflection for a reply whose JSON slice did (`Some`) or did not
/// (`None`) parse as a [`ReflectionOutput`].
pub fn parse_reflection_with(raw: &str, parsed: Option<ReflectionOutput>) -> (o: ReflectionOutput)
    ensures
        match parsed {
            Some(p) => o == p,
            None => is_fallback_of(o, raw@),
        },
{
    match parsed {
        Some(p) => p,
        None => {
            let t = crate::text::trim_str(raw);
            let mut observations: Vec<String> = Vec::new();
            observations.push(t);
            proof {
                assert(views(observations@) =~= seq![trim(raw@)]);
            }
            ReflectionOutput {
                observations,
                patterns: Vec::new(),
                user_preferences: Vec::new(),
                user_reflections: Vec::new(),
            }
        },
    }
}

// ── storage ─────────────────────────────────────────────────────────────

/// One memory write a reflection produces; `category` is the custom
/// memory category the entry is filed under.
pub struct MemoryWrite {
    pub namespace: String,
    pub key: String,
    pub content: String,
    pub category: String,
}

/// Abstract memory write: namespace, key, content (the category equals the namespace).
pub type WriteView = (Seq<char>, Seq<char>, Seq<char>);

/// The view of a memory write.
pub open spec fn write_view(w: MemoryWrite) -> WriteView {
    (w.namespace@, w.key@, w.content@)
}

/// Lines joined with `\n`.
pub open spec fn join_lines(v: Seq<Seq<char>>) -> Seq<char>
    decreases v.len(),
{
    if v.len() == 0 {
        Seq::empty()
    } else if v.len() == 1 {
        v[0]
    } else {
        join_lines(v.drop_last()) + "\n"@ + v.last()
    }
}

/// Where line `i` starts when the lines `v` are written one after another,
/// each followed by one separator character.
pub open spec fn line_start(v: Seq<Seq<char>>, i: nat) -> int
    decreases i,
{
    if i == 0 {
        0
    } else {
        line_start(v, (i - 1) as nat) + v[i - 1].len() + 1
    }
}

proof fn lemma_line_start_prefix(v: Seq<Seq<char>>, n: int, i: nat)
    requires
        0 <= n <= v.len(),
        i <= n,
    ensures
        line_start(v.take(n), i) == line_start(v, i),
    decreases i,
{
    if i > 0 {
        lemma_line_start_prefix(v, n, (i - 1) as nat);
        assert(v.take(n)[i - 1] == v[i - 1]);
    }
}

proof fn lemma_line_start_mono(v: Seq<Seq<char>>, i: nat, j: nat)
    requires
        i <= j,
    ensures
        line_start(v, i) + (j - i) <= line_start(v, j),
    decreases j,
{
    if i < j {
        lemma_line_start_mono(v, i, (j - 1) as nat);
    }
}

proof fn lemma_join_layout(v: Seq<Seq<char>>)
    requires
        v.len() > 0,
    ensures
        join_lines(v).len() == line_start(v, v.len()) - 1,
        forall|i: int|
            0 <= i < v.len() ==> #[trigger] join_lines(v).subrange(
                line_start(v, i as nat),
                line_start(v, i as nat) + v[i].len(),
            ) == v[i],
        forall|i: int| 0 < i < v.len() ==> #[trigger] join_lines(v)[line_start(v, i as nat) - 1] == '\n',
    decreases v.len(),
{
    let n = v.len() as int;
    assert(line_start(v, n as nat) == line_start(v, (n - 1) as nat) + v[n - 1].len() + 1);
    if n == 1 {
        assert(line_start(v, 0) == 0);
        assert(join_lines(v).subrange(0, v[0].len() as int) =~= v[0]);
    } else {
        let w = v.drop_last();
        lemma_join_layout(w);
        assert(w =~= v.take(n - 1));
        let jw = join_lines(w);
        let j = join_lines(v);
        reveal_strlit("\n");
        let jn = jw + "\n"@;
        assert(jn.len() == jw.len() + 1);
        assert(j == jn + v.last());
        assert(forall|x: int| 0 <= x < jw.len() ==> #[trigger] j[x] == jw[x]) by {
            assert forall|x: int| 0 <= x < jw.len() implies #[trigger] j[x] == jw[x] by {
                assert(j[x] == jn[x]);
                assert(jn[x] == jw[x]);
            }
        }
        lemma_line_start_prefix(v, n - 1, (n - 1) as nat);
        assert(line_start(w, (n - 1) as nat) == line_start(v, (n - 1) as nat));
        assert(line_start(v, (n - 1) as nat) == jw.len() + 1);
        assert forall|i: int| 0 <= i < n implies #[trigger] j.subrange(
            line_start(v, i as nat),
            line_start(v, i as nat) + v[i].len(),
        ) == v[i] by {
            if i < n - 1 {
                lemma_line_start_mono(v, (i + 1) as nat, (n - 1) as nat);
                lemma_line_start_prefix(v, n - 1, i as nat);
                lemma_line_start_mono(v, 0, i as nat);
                assert(line_start(v, 0) == 0);
                assert(line_start(v, (i + 1) as nat) == line_start(v, i as nat) + v[i].len() + 1);
                assert(w[i] == v[i]);
                assert(line_start(w, i as nat) == line_start(v, i as nat));
                assert(line_start(v, i as nat) + v[i].len() <= jw.len());
                assert(jw.subrange(line_start(w, i as nat), line_start(w, i as nat) + w[i].len()) == w[i]);
                assert(j.subrange(line_start(v, i as nat), line_start(v, i as nat) + v[i].len()) =~= jw.subrange(
                    line_start(w, i as nat),
                    line_start(w, i as nat) + w[i].len(),
                ));
            } else {
                assert(j.subrange(line_start(v, i as nat), line_start(v, i as nat) + v[i].len()) =~= v.last());
            }
        }
        assert forall|i: int| 0 < i < n implies #[trigger] j[line_start(v, i as nat) - 1] == '\n' by {
            if i < n - 1 {
                lemma_line_start_mono(v, i as nat, (n - 1) as nat);
                lemma_line_start_prefix(v, n - 1, i as nat);
                lemma_line_start_mono(v, 0, i as nat);
                assert(line_start(v, 0) == 0);
                assert(line_start(w, i as nat) == line_start(v, i as nat));
                assert(line_start(v, i as nat) - 1 < jw.len());
                assert(jw[line_start(w, i as nat) - 1] == '\n');
                assert(j[line_start(v, i as nat) - 1] == jw[line_start(w, i as nat) - 1]);
            }
        }
    }
}

/// The observations entry of a reflection holds its observations one per
/// line: observation `i` sits at `line_start(v, i)`, each but the last is
/// followed by a newline, and nothing else is in the entry. In particular
/// two observations `a`, `b` give `a + "\n" + b`.
pub proof fn law_observations_one_per_line(o: ReflectionOutput, date: Seq<char>, hash: Seq<char>)
    requires
        o.observations@.len() > 0,
    ensures
        ({
            let c = spec_plan(o, date, hash)[0].2;
            let v = views(o.observations@);
            &&& spec_plan(o, date, hash)[0].0 == "learning_observations"@
            &&& c.len() == line_start(v, v.len()) - 1
            &&& forall|i: int|
                0 <= i < v.len() ==> #[trigger] c.subrange(line_start(v, i as nat), line_start(v, i as nat) + v[i].len())
                    == v[i]
            &&& forall|i: int| 0 < i < v.len() ==> #[trigger] c[line_start(v, i as nat) - 1] == '\n'
            &&& v.len() == 2 ==> c == v[0] + "\n"@ + v[1]
        }),
{
    let v = views(o.observations@);
    lemma_join_layout(v);
    if v.len() == 2 {
        let c = join_lines(v);
        reveal_strlit("\n");
        assert(line_start(v, 0) == 0);
        assert(line_start(v, 1) == v[0].len() + 1);
        assert(line_start(v, 2) == v[0].len() + v[1].len() + 2);
        assert(c =~= v[0] + "\n"@ + v[1]) by {
            assert(c.subrange(line_start(v, 0), line_start(v, 0) + v[0].len()) == v[0]);
            assert(c.subrange(line_start(v, 1), line_start(v, 1) + v[1].len()) == v[1]);
            assert(c[line_start(v, 1) - 1] == '\n');
            assert forall|x: int| 0 <= x < c.len() implies c[x] == (v[0] + "\n"@ + v[1])[x] by {
                if x < v[0].len() {
                    assert(c[x] == c.subrange(line_start(v, 0), line_start(v, 0) + v[0].len())[x]);
                } else if x > v[0].len() {
                    assert(c[x] == c.subrange(line_start(v, 1), line_start(v, 1) + v[1].len())[x - line_start(v, 1)]);
                }
            }
        }
    }
}

/// The writes of a list of items under `prefix/slug` keys in `ns`.
pub open spec fn slug_writes(ns: Seq<char>, prefix: Seq<char>, items: Seq<Seq<char>>) -> Seq<WriteView> {
    items.map_values(|it: Seq<char>| (ns, prefix + spec_slugify(it), it))
}

/// The writes for a reflection dated `date` with random suffix `hash`:
/// all observations in one entry at `obs/{date}/{hash}` (when there are
/// any), each pattern at `pat/{slug}`, each preference at `pref/{slug}`.
pub open spec fn spec_plan(o: ReflectionOutput, date: Seq<char>, hash: Seq<char>) -> Seq<WriteView> {
    (if o.observations@.len() == 0 {
        Seq::empty()
    } else {
        seq![("learning_observations"@, "obs/"@ + date + "/"@ + hash, join_lines(views(o.observations@)))]
    }) + slug_writes("learning_patterns"@, "pat/"@, views(o.patterns@)) + slug_writes(
        "user_profile"@,
        "pref/"@,
        views(o.user_preferences@),
    )
}

fn mk_write(ns: &str, key: String, content: String) -> (w: MemoryWrite)
    ensures
        write_view(w) == (ns@, key@, content@),
        w.category@ == ns@,
{
    MemoryWrite { namespace: owned(ns), key, content, category: owned(ns) }
}

fn join_with_newlines(v: &Vec<String>) -> (s: String)
    ensures
        s@ == join_lines(views(v@)),
{
    let mut s = String::new();
    let mut i: usize = 0;
    while i < v.len()
        invariant
            i <= v@.len(),
            s@ == join_lines(views(v@).take(i as int)),
        decreases v@.len() - i,
    {
        proof {
            assert(views(v@).take(i + 1).drop_last() =~= views(v@).take(i as int));
            assert(views(v@).take(i + 1).last() == v@[i as int]@);
        }
        if i > 0 {
            push_str(&mut s, "\n");
        } else {
            assert(s@ =~= Seq::<char>::empty());
            assert(views(v@).take(1)[0] == v@[0]@);
        }
        push_str(&mut s, v[i].as_str());
        i = i + 1;
    }
    assert(views(v@).take(v@.len() as int) =~= views(v@));
    s
}

fn push_slug_writes(out: &mut Vec<MemoryWrite>, ns: &str, prefix: &str, items: &Vec<String>)
    requires
        forall|i: int| 0 <= i < old(out)@.len() ==> (#[trigger] old(out)@[i]).category@ == old(out)@[i].namespace@,
    ensures
        forall|i: int| 0 <= i < final(out)@.len() ==> (#[trigger] final(out)@[i]).category@ == final(out)@[i].namespace@,
        final(out)@.map_values(|w: MemoryWrite| write_view(w)) == old(out)@.map_values(|w: MemoryWrite| write_view(w))
            + slug_writes(ns@, prefix@, views(items@)),
{
    let ghost start = old(out)@.map_values(|w: MemoryWrite| write_view(w));
    let mut i: usize = 0;
    while i < items.len()
        invariant
            i <= items@.len(),
            forall|j: int| 0 <= j < out@.len() ==> (#[trigger] out@[j]).category@ == out@[j].namespace@,
            out@.map_values(|w: MemoryWrite| write_view(w)) == start + slug_writes(ns@, prefix@, views(items@).take(i as int)),
        decreases items@.len() - i,
    {
        let mut key = owned(prefix);
        let sl = slugify(items[i].as_str());
        push_str(&mut key, sl.as_str());
        let w = mk_write(ns, key, items[i].clone());
        let ghost before = out@;
        out.push(w);
        proof {
            assert(views(items@).take(i + 1) =~= views(items@).take(i as int).push(items@[i as int]@));
            assert(out@.map_values(|w: MemoryWrite| write_view(w)) =~= before.map_values(|w: MemoryWrite| write_view(w)).push(write_view(w)));
            assert(slug_writes(ns@, prefix@, views(items@).take(i + 1)) =~= slug_writes(ns@, prefix@, views(items@).take(i as int)).push(write_view(w)));
        }
        i = i + 1;
    }
    assert(views(items@).take(items@.len() as int) =~= views(items@));
}

/// The memory writes of a reflection (observations, patterns, preferences).
pub fn plan_reflection_writes(o: &ReflectionOutput, date: &str, hash: &str) -> (ws: Vec<MemoryWrite>)
    ensures
        ws@.map_values(|w: MemoryWrite| write_view(w)) == spec_plan(*o, date@, hash@),
        forall|i: int| 0 <= i < ws@.len() ==> (#[trigger] ws@[i]).category@ == ws@[i].namespace@,
{
    let mut ws: Vec<MemoryWrite> = Vec::new();
    if o.observations.len() > 0 {
        let mut key = owned("obs/");
        push_str(&mut key, date);
        push_str(&mut key, "/");
        push_str(&mut key, hash);
        let content = join_with_newlines(&o.observations);
        let w = mk_write("learning_observations", key, content);
        ws.push(w);
    }
    proof {
        assert(ws@.map_values(|w: MemoryWrite| write_view(w)) =~= if o.observations@.len() == 0 {
            Seq::empty()
        } else {
            seq![("learning_observations"@, "obs/"@ + date@ + "/"@ + hash@, join_lines(views(o.observations@)))]
        });
    }
    push_slug_writes(&mut ws, "learning_patterns", "pat/", &o.patterns);
    push_slug_writes(&mut ws, "user_profile", "pref/", &o.user_preferences);
    proof {
        assert(ws@.map_values(|w: MemoryWrite| write_view(w)) =~= spec_plan(*o, date@, hash@));
    }
    ws
}

/// The write of one explicit reflection dated `date` with random suffix
/// `hash`: the trimmed sentence at `ref/{date}/{hash}` in the reflections
/// namespace, or nothing when it is blank.
pub fn reflection_write(reflection: &str, date: &str, hash: &str) -> (w: Option<MemoryWrite>)
    ensures
        match w {
            Some(m) => !is_blank(reflection@) && write_view(m) == (REFLECTIONS_NAMESPACE@, "ref/"@ + date@ + "/"@ + hash@, trim(reflection@))
                && m.category@ == REFLECTIONS_NAMESPACE@,
            None => is_blank(reflection@),
        },
{
    let t = crate::text::trim_str(reflection);
    if crate::text::blank(reflection) {
        return None;
    }
    let mut key = owned("ref/");
    push_str(&mut key, date);
    push_str(&mut key, "/");
    push_str(&mut key, hash);
    Some(mk_write(REFLECTIONS_NAMESPACE, key, t))
}

} // verus!
