//! The syntax of an email address: a word, `@`, and two or more words joined
//! by single dots, where a word is a non-empty run of ASCII letters, digits,
//! `_` and `-`.

use vstd::prelude::*;

verus! {

/// A character that may stand in a word: an ASCII letter or digit, `_` or `-`.
pub open spec fn is_word_char(c: char) -> bool {
    ||| 'a' <= c <= 'z'
    ||| 'A' <= c <= 'Z'
    ||| '0' <= c <= '9'
    ||| c == '_'
    ||| c == '-'
}

/// A non-empty run of word characters.
pub open spec fn is_word(s: Seq<char>) -> bool {
    &&& s.len() > 0
    &&& forall|i: int| 0 <= i < s.len() ==> is_word_char(#[trigger] s[i])
}

/// Two or more words joined by single dots: nothing but word characters and
/// dots, at least one dot, none at either end and no two side by side.
pub open spec fn is_domain(d: Seq<char>) -> bool {
    &&& d.len() > 0
    &&& forall|i: int| 0 <= i < d.len() ==> is_word_char(#[trigger] d[i]) || d[i] == '.'
    &&& exists|i: int| 0 <= i < d.len() && #[trigger] d[i] == '.'
    &&& d[0] != '.'
    &&& d[d.len() - 1] != '.'
    &&& forall|i: int| 0 < i < d.len() ==> !(#[trigger] d[i] == '.' && d[i - 1] == '.')
}

/// `s` splits at index `at` into a word, `@` and a domain.
pub open spec fn is_email_split_at(s: Seq<char>, at: int) -> bool {
    &&& 0 < at < s.len()
    &&& s[at] == '@'
    &&& is_word(s.subrange(0, at))
    &&& is_domain(s.subrange(at + 1, s.len() as int))
}

/// A syntactically valid email address.
pub open spec fn is_email(s: Seq<char>) -> bool {
    exists|at: int| is_email_split_at(s, at)
}

/// Every character of a valid address is a word character, `@` or a dot, and
/// so lies in ASCII.
pub proof fn lemma_email_is_ascii(s: Seq<char>)
    requires
        is_email(s),
    ensures
        forall|i: int| 0 <= i < s.len() ==> '\0' <= #[trigger] s[i] <= '\u{7f}',
{
    let at = choose|at: int| is_email_split_at(s, at);
    let local = s.subrange(0, at);
    let domain = s.subrange(at + 1, s.len() as int);
    assert forall|i: int| 0 <= i < s.len() implies '\0' <= #[trigger] s[i] <= '\u{7f}' by {
        if i < at {
            assert(local[i] == s[i]);
        } else if i > at {
            assert(domain[i - at - 1] == s[i]);
        }
    }
}

/// A valid address splits at one place only: at the first character that is
/// no word character.
pub proof fn lemma_split_is_first_non_word(s: Seq<char>, at: int, first: int)
    requires
        is_email_split_at(s, at),
        0 <= first <= s.len(),
        forall|i: int| 0 <= i < first ==> is_word_char(#[trigger] s[i]),
        first < s.len() ==> !is_word_char(s[first]),
    ensures
        at == first,
{
    let local = s.subrange(0, at);
    if first < at {
        assert(local[first] == s[first]);
    }
}

/// Whether a byte of an ASCII string is a word character.
fn is_word_byte(b: u8, Ghost(c): Ghost<char>) -> (ok: bool)
    requires
        '\0' <= c <= '\u{7f}',
        b == c as u8,
    ensures
        ok == is_word_char(c),
{
    (b >= 97 && b <= 122) || (b >= 65 && b <= 90) || (b >= 48 && b <= 57) || b == 95 || b == 45
}

/// Whether the characters of `text` from `start` on form a domain.
fn scan_domain(text: &str, start: usize, len: usize) -> (ok: bool)
    requires
        text.is_ascii(),
        len == text@.len(),
        start <= len,
    ensures
        ok == is_domain(text@.subrange(start as int, len as int)),
{
    let ghost d = text@.subrange(start as int, len as int);
    if start == len {
        return false;
    }
    let mut i: usize = start;
    let mut dots: usize = 0;
    let mut after_dot: bool = true;
    while i < len
        invariant
            text.is_ascii(),
            len == text@.len(),
            start <= i <= len,
            d == text@.subrange(start as int, len as int),
            dots <= i - start,
            forall|k: int| 0 <= k < i - start ==> is_word_char(#[trigger] d[k]) || d[k] == '.',
            dots > 0 <==> exists|k: int| 0 <= k < i - start && #[trigger] d[k] == '.',
            i > start ==> d[0] != '.',
            forall|k: int| 0 < k < i - start ==> !(#[trigger] d[k] == '.' && d[k - 1] == '.'),
            after_dot <==> (i == start || d[i - start - 1] == '.'),
        decreases len - i,
    {
        let b = text.get_ascii(i);
        let ghost c = text@[i as int];
        assert(d[i - start] == c);
        if b == 46 {
            if after_dot {
                assert(!is_domain(d)) by {
                    if i > start {
                        assert(d[i - start] == '.' && d[i - start - 1] == '.');
                    }
                }
                return false;
            }
            dots = dots + 1;
            after_dot = true;
        } else if is_word_byte(b, Ghost(c)) {
            after_dot = false;
        } else {
            assert(!is_domain(d)) by {
                assert(!(is_word_char(d[i - start]) || d[i - start] == '.'));
            }
            return false;
        }
        i = i + 1;
    }
    dots > 0 && !after_dot
}

/// Whether `email` is a syntactically valid email address.
pub fn is_valid_email(email: &str) -> (ok: bool)
    ensures
        ok == is_email(email@),
{
    if !email.is_ascii() {
        proof {
            if is_email(email@) {
                lemma_email_is_ascii(email@);
            }
        }
        return false;
    }
    let len = email.unicode_len();
    let mut at: usize = 0;
    while at < len
        invariant_except_break
            at <= len,
            forall|i: int| 0 <= i < at ==> is_word_char(#[trigger] email@[i]),
        invariant
            email.is_ascii(),
            len == email@.len(),
        ensures
            at <= len,
            forall|i: int| 0 <= i < at ==> is_word_char(#[trigger] email@[i]),
            at < len ==> !is_word_char(email@[at as int]),
        decreases len - at,
    {
        let b = email.get_ascii(at);
        if !is_word_byte(b, Ghost(email@[at as int])) {
            break;
        }
        at = at + 1;
    }
    if at == 0 || at == len {
        proof {
            if is_email(email@) {
                let split = choose|split: int| is_email_split_at(email@, split);
                lemma_split_is_first_non_word(email@, split, at as int);
            }
        }
        return false;
    }
    if email.get_ascii(at) != 64 {
        proof {
            if is_email(email@) {
                let split = choose|split: int| is_email_split_at(email@, split);
                lemma_split_is_first_non_word(email@, split, at as int);
            }
        }
        return false;
    }
    let domain_ok = scan_domain(email, at + 1, len);
    proof {
        if is_email(email@) {
            let split = choose|split: int| is_email_split_at(email@, split);
            lemma_split_is_first_non_word(email@, split, at as int);
        }
        if domain_ok {
            let local = email@.subrange(0, at as int);
            assert forall|i: int| 0 <= i < local.len() implies is_word_char(#[trigger] local[i]) by {
                assert(local[i] == email@[i]);
            }
            assert(is_email_split_at(email@, at as int));
        }
    }
    domain_ok
}


/// Every one of `words` is a word.
pub open spec fn all_words(words: Seq<Seq<char>>) -> bool {
    forall|i: int| 0 <= i < words.len() ==> is_word(#[trigger] words[i])
}

/// The words, joined by single dots.
pub open spec fn join_words(words: Seq<Seq<char>>) -> Seq<char>
    decreases words.len(),
{
    if words.len() == 0 {
        Seq::empty()
    } else if words.len() == 1 {
        words[0]
    } else {
        join_words(words.drop_last()) + seq!['.'] + words.last()
    }
}

/// Words joined by dots, or one word alone: as a domain, but for the dot it
/// must hold.
spec fn is_dotted(d: Seq<char>) -> bool {
    &&& d.len() > 0
    &&& forall|i: int| 0 <= i < d.len() ==> is_word_char(#[trigger] d[i]) || d[i] == '.'
    &&& d[0] != '.'
    &&& d[d.len() - 1] != '.'
    &&& forall|i: int| 0 < i < d.len() ==> !(#[trigger] d[i] == '.' && d[i - 1] == '.')
}

/// Whether `d` holds a dot.
spec fn has_dot(d: Seq<char>) -> bool {
    exists|i: int| 0 <= i < d.len() && #[trigger] d[i] == '.'
}

/// A dotted text and a word, joined by a dot, make a dotted text with a dot.
proof fn lemma_dotted_extends(head: Seq<char>, word: Seq<char>)
    requires
        is_dotted(head),
        is_word(word),
    ensures
        is_dotted(head + seq!['.'] + word),
        has_dot(head + seq!['.'] + word),
{
    let d = head + seq!['.'] + word;
    let n = head.len() as int;
    assert(d.len() == n + 1 + word.len());
    assert forall|i: int| 0 <= i < d.len() implies (if i < n {
        d[i] == head[i]
    } else if i == n {
        d[i] == '.'
    } else {
        d[i] == word[i - n - 1]
    }) by {}
    assert forall|i: int| 0 <= i < d.len() implies is_word_char(#[trigger] d[i]) || d[i]
        == '.' by {
        if i < n {
            assert(d[i] == head[i]);
        } else if i > n {
            assert(d[i] == word[i - n - 1]);
        }
    }
    assert(d[0] == head[0]);
    assert(d[d.len() - 1] == word[word.len() - 1]);
    assert forall|i: int| 0 < i < d.len() implies !(#[trigger] d[i] == '.' && d[i - 1]
        == '.') by {
        if i < n {
            assert(d[i] == head[i] && d[i - 1] == head[i - 1]);
        } else if i == n {
            assert(d[i - 1] == head[n - 1]);
        } else {
            assert(d[i] == word[i - n - 1]);
        }
    }
    assert(d[n] == '.');
}

/// Words joined by dots make a dotted text, with a dot where there are two
/// words or more.
proof fn lemma_joined_is_dotted(words: Seq<Seq<char>>)
    requires
        words.len() >= 1,
        all_words(words),
    ensures
        is_dotted(join_words(words)),
        words.len() >= 2 ==> has_dot(join_words(words)),
    decreases words.len(),
{
    if words.len() == 1 {
        let w = words[0];
        assert(is_word(w));
        assert forall|i: int| 0 < i < w.len() implies !(#[trigger] w[i] == '.' && w[i - 1]
            == '.') by {
            assert(is_word_char(w[i]));
        }
        assert(is_word_char(w[0]));
        assert(is_word_char(w[w.len() - 1]));
    } else {
        let head = words.drop_last();
        assert forall|i: int| 0 <= i < head.len() implies is_word(#[trigger] head[i]) by {
            assert(head[i] == words[i]);
        }
        lemma_joined_is_dotted(head);
        assert(is_word(words.last()));
        lemma_dotted_extends(join_words(head), words.last());
    }
}

/// The index of the last dot of `d`, or -1 where it holds none.
spec fn last_dot(d: Seq<char>) -> int
    decreases d.len(),
{
    if d.len() == 0 {
        -1
    } else if d.last() == '.' {
        d.len() - 1
    } else {
        last_dot(d.drop_last())
    }
}

/// The last dot is a dot, and no dot comes after it.
proof fn lemma_last_dot(d: Seq<char>)
    ensures
        -1 <= last_dot(d) < d.len(),
        last_dot(d) >= 0 ==> d[last_dot(d)] == '.',
        forall|i: int| last_dot(d) < i < d.len() ==> #[trigger] d[i] != '.',
        has_dot(d) ==> last_dot(d) >= 0,
    decreases d.len(),
{
    if d.len() > 0 && d.last() != '.' {
        let head = d.drop_last();
        lemma_last_dot(head);
        assert forall|i: int| last_dot(d) < i < d.len() implies #[trigger] d[i] != '.' by {
            if i < head.len() {
                assert(head[i] == d[i]);
            }
        }
        if has_dot(d) {
            let k = choose|k: int| 0 <= k < d.len() && #[trigger] d[k] == '.';
            assert(head[k] == d[k]);
        }
        if last_dot(d) >= 0 {
            assert(head[last_dot(d)] == d[last_dot(d)]);
        }
    }
}

/// A dotted text is words joined by dots.
proof fn lemma_dotted_is_joined(d: Seq<char>) -> (words: Seq<Seq<char>>)
    requires
        is_dotted(d),
    ensures
        words.len() >= 1,
        all_words(words),
        join_words(words) == d,
        has_dot(d) ==> words.len() >= 2,
    decreases d.len(),
{
    lemma_last_dot(d);
    let k = last_dot(d);
    if k < 0 {
        assert forall|i: int| 0 <= i < d.len() implies is_word_char(#[trigger] d[i]) by {
            assert(d[i] != '.');
        }
        let words = seq![d];
        assert(words[0] == d);
        words
    } else {
        let head = d.subrange(0, k);
        let word = d.subrange(k + 1, d.len() as int);
        assert(k > 0);
        assert(k < d.len() - 1);
        assert forall|i: int| 0 <= i < word.len() implies is_word_char(#[trigger] word[i]) by {
            assert(word[i] == d[k + 1 + i]);
            assert(d[k + 1 + i] != '.');
        }
        assert(is_dotted(head)) by {
            assert forall|i: int| 0 <= i < head.len() implies is_word_char(#[trigger] head[i])
                || head[i] == '.' by {
                assert(head[i] == d[i]);
            }
            assert(head[0] == d[0]);
            assert(head[head.len() - 1] == d[k - 1]);
            assert(!(d[k] == '.' && d[k - 1] == '.'));
            assert forall|i: int| 0 < i < head.len() implies !(#[trigger] head[i] == '.' && head[i
                - 1] == '.') by {
                assert(head[i] == d[i] && head[i - 1] == d[i - 1]);
                assert(!(d[i] == '.' && d[i - 1] == '.'));
            }
        }
        let front = lemma_dotted_is_joined(head);
        let words = front.push(word);
        assert(words.drop_last() == front);
        assert(words.last() == word);
        assert forall|i: int| 0 <= i < words.len() implies is_word(#[trigger] words[i]) by {
            if i < front.len() {
                assert(words[i] == front[i]);
            }
        }
        assert(head + seq!['.'] + word == d);
        words
    }
}

/// The grammar of a domain, one way: two or more words joined by dots are a
/// domain.
pub proof fn lemma_joined_words_are_a_domain(words: Seq<Seq<char>>)
    requires
        words.len() >= 2,
        all_words(words),
    ensures
        is_domain(join_words(words)),
{
    lemma_joined_is_dotted(words);
    let d = join_words(words);
    let k = choose|k: int| 0 <= k < d.len() && #[trigger] d[k] == '.';
    assert(d[k] == '.');
}

/// The grammar of a domain, the other way: a domain is two or more words
/// joined by dots.
pub proof fn lemma_domain_is_joined_words(d: Seq<char>) -> (words: Seq<Seq<char>>)
    requires
        is_domain(d),
    ensures
        words.len() >= 2,
        all_words(words),
        join_words(words) == d,
{
    let k = choose|k: int| 0 <= k < d.len() && #[trigger] d[k] == '.';
    assert(has_dot(d));
    lemma_dotted_is_joined(d)
}

/// The grammar of an address, one way: a word, `@` and two or more words
/// joined by dots are an email address.
pub proof fn lemma_grammar_gives_email(local: Seq<char>, words: Seq<Seq<char>>)
    requires
        is_word(local),
        words.len() >= 2,
        all_words(words),
    ensures
        is_email(local + seq!['@'] + join_words(words)),
{
    lemma_joined_words_are_a_domain(words);
    let s = local + seq!['@'] + join_words(words);
    let at = local.len() as int;
    assert(s.subrange(0, at) == local);
    assert(s.subrange(at + 1, s.len() as int) == join_words(words));
    assert(s[at] == '@');
    assert(is_email_split_at(s, at));
}

/// The grammar of an address, the other way: an email address is a word, `@`
/// and two or more words joined by dots.
pub proof fn lemma_email_follows_grammar(s: Seq<char>) -> (parts: (Seq<char>, Seq<Seq<char>>))
    requires
        is_email(s),
    ensures
        is_word(parts.0),
        parts.1.len() >= 2,
        all_words(parts.1),
        s == parts.0 + seq!['@'] + join_words(parts.1),
{
    let at = choose|at: int| is_email_split_at(s, at);
    let local = s.subrange(0, at);
    let domain = s.subrange(at + 1, s.len() as int);
    let words = lemma_domain_is_joined_words(domain);
    assert(s == local + seq!['@'] + domain);
    (local, words)
}

} // verus!
