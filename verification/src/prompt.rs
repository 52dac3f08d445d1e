//! Building a prompt with an exact token count: the prefix, the filler text,
//! and the search that truncates a text to the wanted number of tokens.
//!
//! Counting tokens is the caller's work. A [`PromptJob`] says which text it
//! needs counted next ([`PromptJob::pending`]) and takes the count back
//! ([`PromptJob::observe`]) until it hands out the finished prompt.
use vstd::prelude::*;
use vstd::utf8::is_ascii_chars;
use vstd::string::StrSliceExecFns;
use rand::rngs::StdRng;
use crate::text::{decimal, decimal_text};
use crate::draws::{sentence_text, SeededFiller, SeededRng};

verus! {

/// Number of text generation attempts before giving up.
pub const MAX_ATTEMPTS: usize = 3;

/// The longest sentence that `lorem_sentence` yields.
pub const MAX_SENTENCE_CHARS: usize = 285;

/// The characters of lorem-ipsum text: lowercase ASCII letters, the space
/// and the period.
pub open spec fn is_lorem_char(c: char) -> bool {
    ('a' <= c && c <= 'z') || c == ' ' || c == '.'
}

/// Whether every character of `s` from position `k` on is a lorem-ipsum
/// character.
pub open spec fn lorem_after(s: Seq<char>, k: int) -> bool {
    forall|i: int| 0 <= i && k <= i < s.len() ==> #[trigger] is_lorem_char(s[i])
}

/// A lorem-ipsum sentence from `fake::faker::lorem::en::Sentence(5..20)`:
/// 5 to 19 words of the crate's word list (lowercase ASCII letters, 1 to 14
/// of them) joined by spaces, followed by a period. Stated: every character
/// is a lowercase letter, a space or a period, and the sentence is 1 to
/// `MAX_SENTENCE_CHARS` characters long; which words come depends on the
/// generator's state.
#[verifier::external_body]
pub(crate) fn lorem_sentence(rng: &mut StdRng) -> (r: String)
    ensures
        lorem_after(r@, 0),
        1 <= r@.len() <= MAX_SENTENCE_CHARS,
{
    fake::Fake::fake_with_rng::<String, StdRng>(&fake::faker::lorem::en::Sentence(5..20), rng)
}

/// Characters of random text to generate for `remaining` tokens at the given
/// attempt: 5 characters per token, a margin of 1.5, times the attempt
/// number, rounded down (`remaining * 5 * 1.5 * attempt`, which binary64
/// computes exactly for the token counts allowed by `target_in_range`).
pub open spec fn estimated_chars(remaining: nat, attempt: nat) -> nat {
    (15 * remaining * attempt) / 2
}

/// The token targets that prompts can be built for: the character estimate
/// is exact in binary64 and the generated text fits in memory addresses.
pub open spec fn target_in_range(target: nat) -> bool {
    &&& target < 0x8000_0000_0000
    &&& estimated_chars(target, 3) + MAX_SENTENCE_CHARS + 1 <= usize::MAX
}

/// Whether prompts can be built for `target` tokens.
pub fn target_supported(target: usize) -> (r: bool)
    ensures
        r == target_in_range(target as nat),
{
    let t = target as u64;
    if t >= 0x8000_0000_0000u64 {
        return false;
    }
    assert(45 * t < 45 * 0x8000_0000_0000u64) by (nonlinear_arith)
        requires
            t < 0x8000_0000_0000u64,
    ;
    let est: u64 = (45 * t) / 2;
    assert(est == estimated_chars(target as nat, 3)) by (nonlinear_arith)
        requires
            est == (45 * t) / 2,
            t == target,
    ;
    est <= (usize::MAX as u64) - (MAX_SENTENCE_CHARS as u64) - 1
}

/// The character estimate for `remaining` tokens at attempt `attempt`.
pub fn estimate_chars(remaining: usize, attempt: usize) -> (r: usize)
    requires
        target_in_range(remaining as nat),
        1 <= attempt <= MAX_ATTEMPTS,
    ensures
        r == estimated_chars(remaining as nat, attempt as nat),
{
    let ra = remaining * attempt;
    proof {
        assert(15 * remaining * attempt <= 15 * remaining * 3) by (nonlinear_arith)
            requires
                attempt <= 3,
        ;
        assert(ra * 15 == 15 * remaining * attempt) by (nonlinear_arith)
            requires
                ra == remaining * attempt,
        ;
    }
    7 * ra + ra / 2
}

/// `"[synthetic-{index}] "`: the prefix that makes each prompt unique.
pub open spec fn synthetic_tag(index: nat) -> Seq<char> {
    seq!['[', 's', 'y', 'n', 't', 'h', 'e', 't', 'i', 'c', '-'] + decimal(index) + seq![']', ' ']
}

proof fn decimal_is_ascii(n: nat)
    ensures
        is_ascii_chars(decimal(n)),
    decreases n,
{
    if n >= 10 {
        decimal_is_ascii(n / 10);
    }
}

/// Builds `"[synthetic-{index}] "`.
pub fn synthetic_tag_text(index: usize) -> (r: String)
    ensures
        r@ == synthetic_tag(index as nat),
        is_ascii_chars(r@),
{
    let head = String::from_str("[synthetic-");
    let digits = decimal_text(index);
    let with_digits = head.concat(digits.as_str());
    let r = with_digits.concat("] ");
    proof {
        reveal_strlit("[synthetic-");
        reveal_strlit("] ");
        decimal_is_ascii(index as nat);
    }
    assert(r@ =~= synthetic_tag(index as nat));
    r
}

/// The prefix of a prompt: the shared common prefix when this prompt uses it
/// and it is not empty; otherwise the unique tag when tags are added;
/// otherwise nothing.
pub open spec fn chosen_prefix(
    use_common_prefix: bool,
    common_prefix: Option<Seq<char>>,
    add_prefix: bool,
    index: nat,
) -> Seq<char> {
    if use_common_prefix && common_prefix is Some && common_prefix->0.len() > 0 {
        common_prefix->0
    } else if add_prefix {
        synthetic_tag(index)
    } else {
        Seq::empty()
    }
}

/// The seed of the filler of prompt `index`: the generator's seed plus the
/// index (an overflow panics in the debug profile, so it is left out).
pub fn prompt_seed(seed: u64, index: usize) -> (r: u64)
    requires
        seed + index <= u64::MAX,
    ensures
        r == seed + index,
{
    seed + index as u64
}

/// Whether a generator shares a common prefix at all: only when the prefix is
/// to hold some tokens.
pub fn wants_common_prefix(common_prefix_tokens: usize) -> (r: bool)
    ensures
        r == (common_prefix_tokens > 0),
{
    common_prefix_tokens > 0
}

/// The view of an optional text.
pub open spec fn optional_text(t: Option<String>) -> Option<Seq<char>> {
    match t {
        Some(s) => Some(s@),
        None => None,
    }
}

/// Chooses the prefix of the prompt with the given index.
pub fn choose_prefix(
    use_common_prefix: bool,
    common_prefix: &Option<String>,
    add_prefix: bool,
    index: usize,
) -> (r: String)
    ensures
        r@ == chosen_prefix(use_common_prefix, optional_text(*common_prefix), add_prefix, index as nat),
        (common_prefix matches Some(c) ==> is_ascii_chars(c@)) ==> is_ascii_chars(r@),
{
    if use_common_prefix {
        if let Some(common) = common_prefix {
            if !common.as_str().is_empty() {
                return common.clone();
            }
        }
    }
    if add_prefix {
        synthetic_tag_text(index)
    } else {
        String::new()
    }
}

/// A prompt chosen to share the common prefix starts with it whenever the
/// common prefix is present and not empty, whether or not tags are added;
/// `add_prefix` only decides, for the other prompts, between the
/// `[synthetic-{index}]` tag and no prefix at all.
pub proof fn common_prefix_wins_over_tags(
    use_common_prefix: bool,
    common_prefix: Option<Seq<char>>,
    add_prefix: bool,
    index: nat,
)
    ensures
        use_common_prefix && common_prefix is Some && common_prefix->0.len() > 0 ==> chosen_prefix(
            use_common_prefix,
            common_prefix,
            add_prefix,
            index,
        ) == common_prefix->0,
        !(use_common_prefix && common_prefix is Some && common_prefix->0.len() > 0) ==> chosen_prefix(
            use_common_prefix,
            common_prefix,
            true,
            index,
        ) == seq!['[', 's', 'y', 'n', 't', 'h', 'e', 't', 'i', 'c', '-'] + decimal(index) + seq![
            ']',
            ' ',
        ] && chosen_prefix(use_common_prefix, common_prefix, false, index).len() == 0,
{
}

proof fn ascii_concat(a: Seq<char>, b: Seq<char>)
    requires
        is_ascii_chars(a),
        is_ascii_chars(b),
    ensures
        is_ascii_chars(a + b),
{
    assert forall|i| 0 <= i < (a + b).len() implies '\0' <= #[trigger] (a + b)[i] <= '\u{7f}' by {
        if i < a.len() {
            assert((a + b)[i] == a[i]);
        } else {
            assert((a + b)[i] == b[i - a.len()]);
        }
    }
}

proof fn ascii_prefix(a: Seq<char>, n: int)
    requires
        is_ascii_chars(a),
        0 <= n <= a.len(),
    ensures
        is_ascii_chars(a.take(n)),
{
    assert forall|i| 0 <= i < a.take(n).len() implies '\0' <= #[trigger] a.take(n)[i] <= '\u{7f}' by {
        assert(a.take(n)[i] == a[i]);
    }
}

proof fn lorem_is_ascii(s: Seq<char>)
    requires
        lorem_after(s, 0),
    ensures
        is_ascii_chars(s),
{
    assert forall|i| 0 <= i < s.len() implies '\0' <= #[trigger] s[i] <= '\u{7f}' by {
        assert(is_lorem_char(s[i]));
    }
}

proof fn lorem_concat(a: Seq<char>, b: Seq<char>, k: int)
    requires
        0 <= k <= a.len(),
        lorem_after(a, k),
        lorem_after(b, 0),
    ensures
        lorem_after(a + b, k),
{
    assert forall|i: int| 0 <= i && k <= i < (a + b).len() implies #[trigger] is_lorem_char((a + b)[i]) by {
        if i < a.len() {
            assert((a + b)[i] == a[i]);
        } else {
            assert((a + b)[i] == b[i - a.len()]);
        }
    }
}

proof fn lorem_take(a: Seq<char>, n: int, k: int)
    requires
        0 <= n <= a.len(),
        lorem_after(a, k),
    ensures
        lorem_after(a.take(n), k),
{
    assert forall|i: int| 0 <= i && k <= i < a.take(n).len() implies #[trigger] is_lorem_char(a.take(n)[i]) by {
        assert(a.take(n)[i] == a[i]);
    }
}

/// The text `sentence_text` gives for one more sentence.
proof fn sentence_text_push(sentences: Seq<Seq<char>>, next: Seq<char>)
    ensures
        sentence_text(sentences.push(next)) == sentence_text(sentences) + next + seq![' '],
{
    assert(sentences.push(next).drop_last() =~= sentences);
}

/// Random filler of exactly `num_chars` characters, each a lowercase letter,
/// a space or a period: the start of the lorem-ipsum sentences, each followed
/// by a space, that a generator seeded with `seed` gives.
pub fn seeded_filler(seed: u64, num_chars: usize) -> (r: SeededFiller)
    requires
        num_chars + MAX_SENTENCE_CHARS + 1 <= usize::MAX,
    ensures
        r.seed() == seed,
        r.chars().len() == num_chars,
        r.chars() == sentence_text(r.sentences()).take(num_chars as int),
        lorem_after(r.chars(), 0),
        is_ascii_chars(r.chars()),
{
    let mut rng = SeededRng::new(seed);
    let mut text = String::new();
    let mut len: usize = 0;
    proof {
        reveal_strlit(" ");
    }
    while len < num_chars
        invariant
            text@.len() == len,
            text@ == sentence_text(rng.sentences()),
            rng.seed() == seed,
            lorem_after(text@, 0),
            len <= num_chars + MAX_SENTENCE_CHARS + 1,
            num_chars + MAX_SENTENCE_CHARS + 1 <= usize::MAX,
            " "@ == seq![' '],
        decreases num_chars + MAX_SENTENCE_CHARS + 1 - len,
    {
        let ghost drawn = rng.sentences();
        let sentence = rng.sentence();
        let sentence_len = sentence.as_str().unicode_len();
        let ghost before = text@;
        text.append(sentence.as_str());
        proof {
            lorem_concat(before, sentence@, 0);
        }
        let ghost middle = text@;
        text.append(" ");
        proof {
            assert(is_lorem_char(seq![' '][0]));
            lorem_concat(middle, seq![' '], 0);
            sentence_text_push(drawn, sentence@);
        }
        len = len + sentence_len + 1;
    }
    proof {
        lorem_is_ascii(text@);
    }
    let cut = text.as_str().substring_ascii(0, num_chars);
    proof {
        lorem_take(text@, num_chars as int, 0);
        lorem_is_ascii(text@.take(num_chars as int));
        assert(text@.subrange(0, num_chars as int) =~= text@.take(num_chars as int));
    }
    SeededFiller::drawn(rng, cut.to_owned())
}

/// Random filler text of exactly `num_chars` characters, each a lowercase
/// letter, a space or a period: lorem-ipsum sentences, each followed by a
/// space, from a generator seeded with `seed`, cut to length.
pub fn filler_text(seed: u64, num_chars: usize) -> (r: String)
    requires
        num_chars + MAX_SENTENCE_CHARS + 1 <= usize::MAX,
    ensures
        r@.len() == num_chars,
        lorem_after(r@, 0),
        is_ascii_chars(r@),
{
    seeded_filler(seed, num_chars).into_text()
}

proof fn estimate_monotone(r1: nat, a1: nat, r2: nat, a2: nat)
    requires
        r1 <= r2,
        a1 <= a2,
    ensures
        estimated_chars(r1, a1) <= estimated_chars(r2, a2),
{
    assert(15 * r1 * a1 <= 15 * r2 * a2) by (nonlinear_arith)
        requires
            r1 <= r2,
            a1 <= a2,
    ;
    assert((15 * r1 * a1) / 2 <= (15 * r2 * a2) / 2) by (nonlinear_arith)
        requires
            15 * r1 * a1 <= 15 * r2 * a2,
    ;
}

proof fn target_in_range_smaller(small: nat, large: nat)
    requires
        small <= large,
        target_in_range(large),
    ensures
        target_in_range(small),
{
    estimate_monotone(small, 3, large, 3);
}

/// Where the building of a prompt stands.
pub enum Stage {
    /// The prefix must be counted.
    CountPrefix,
    /// Generation attempt `attempt` produced `text`, the prefix followed by
    /// `filler`, which must be counted.
    Attempt { attempt: usize, text: String, filler: SeededFiller },
    /// Searching for the longest start of `text` within the target: the first
    /// `low` characters are known to fit (or `low` is 0), the first `high + 1`
    /// are known not to fit (or `high` is the whole text).
    Truncate { text: String, low: usize, high: usize },
    /// Every attempt fell short of the target; `text` is the prompt.
    Exhausted { text: String },
}

/// What the caller of a [`PromptJob`] must do next.
pub enum PromptStep {
    /// Count the tokens of this text and hand the count to `observe`.
    Count(String),
    /// The prompt is built.
    Finished(String),
}

/// The text that a step carries.
pub open spec fn step_text(step: PromptStep) -> Seq<char> {
    match step {
        PromptStep::Count(t) => t@,
        PromptStep::Finished(t) => t@,
    }
}

/// Whether a prompt keeps to its token target: it is empty, or its count was
/// observed and is at most the target.
pub open spec fn within_budget(counts: Map<Seq<char>, nat>, text: Seq<char>, target: nat) -> bool {
    text.len() == 0 || (counts.contains_key(text) && counts[text] <= target)
}

/// Whether one of the two texts starts with the other.
pub open spec fn agree_on_common_start(a: Seq<char>, b: Seq<char>) -> bool {
    forall|i: int| 0 <= i < a.len() && 0 <= i < b.len() ==> a[i] == b[i]
}

/// The point that a truncation search probes next: the middle of
/// `low..=high`, rounded up.
pub open spec fn midpoint(low: nat, high: nat) -> nat {
    (low + high + 1) / 2
}

/// The building of a prompt of `target` tokens that starts with `prefix`:
/// filler text is generated from `seed`, at most `MAX_ATTEMPTS` times with a
/// growing length, until the text reaches the target; the text is then cut
/// to the longest start that stays within the target.
pub struct PromptJob {
    pub prefix: String,
    pub target: usize,
    pub seed: u64,
    /// Tokens that the filler must supply: the target less the prefix's tokens.
    pub remaining: usize,
    pub stage: Stage,
    /// The token counts observed so far, by text.
    pub counts: Ghost<Map<Seq<char>, nat>>,
}

impl PromptJob {
    /// Whether the prompt is built.
    pub open spec fn is_finished(self) -> bool {
        match self.stage {
            Stage::Truncate { text, low, high } => low >= high,
            Stage::Exhausted { .. } => true,
            _ => false,
        }
    }

    /// The text to count next, or the finished prompt.
    pub open spec fn next_text(self) -> Seq<char> {
        match self.stage {
            Stage::CountPrefix => self.prefix@,
            Stage::Attempt { attempt, text, .. } => text@,
            Stage::Truncate { text, low, high } => if low < high {
                text@.take(midpoint(low as nat, high as nat) as int)
            } else {
                text@.take(low as int)
            },
            Stage::Exhausted { text } => text@,
        }
    }

    /// The invariant of a job.
    pub open spec fn wf(self) -> bool {
        &&& target_in_range(self.target as nat)
        &&& self.remaining <= self.target
        &&& is_ascii_chars(self.prefix@)
        &&& match self.stage {
            Stage::CountPrefix => true,
            Stage::Attempt { attempt, text, filler } => {
                &&& 1 <= attempt <= MAX_ATTEMPTS
                &&& is_ascii_chars(text@)
                &&& text@.len() == self.prefix@.len() + estimated_chars(
                    self.remaining as nat,
                    attempt as nat,
                )
                &&& text@.take(self.prefix@.len() as int) == self.prefix@
                &&& lorem_after(text@, self.prefix@.len() as int)
                &&& filler.seed() == self.seed
                &&& text@ == self.prefix@ + filler.chars()
                &&& filler.chars() == sentence_text(filler.sentences()).take(
                    filler.chars().len() as int,
                )
            },
            Stage::Truncate { text, low, high } => {
                &&& low <= high <= text@.len()
                &&& is_ascii_chars(text@)
                &&& self.prefix@.len() <= text@.len()
                &&& text@.take(self.prefix@.len() as int) == self.prefix@
                &&& lorem_after(text@, self.prefix@.len() as int)
                &&& (low > 0 ==> self.counts@.contains_key(text@.take(low as int))
                    && self.counts@[text@.take(low as int)] <= self.target)
                &&& (high < text@.len() ==> self.counts@.contains_key(text@.take(high + 1))
                    && self.counts@[text@.take(high + 1)] > self.target)
            },
            Stage::Exhausted { text } => {
                &&& is_ascii_chars(text@)
                &&& self.prefix@.len() <= text@.len()
                &&& text@.take(self.prefix@.len() as int) == self.prefix@
                &&& lorem_after(text@, self.prefix@.len() as int)
                &&& self.counts@.contains_key(text@)
                &&& self.counts@[text@] < self.target
            },
        }
    }

    /// A finished truncation search stands at one point `low`: the start of
    /// that length was counted within the target (or is empty) and the start
    /// one character longer was counted above it (or the text has no more).
    pub open spec fn truncation_settled(self) -> bool {
        match self.stage {
            Stage::Truncate { text, low, high } => low >= high ==> {
                &&& low == high
                &&& (low > 0 ==> self.counts@.contains_key(text@.take(low as int))
                    && self.counts@[text@.take(low as int)] <= self.target)
                &&& (low < text@.len() ==> self.counts@.contains_key(text@.take(low + 1))
                    && self.counts@[text@.take(low + 1)] > self.target)
            },
            _ => true,
        }
    }

    /// Starts building a prompt of `target` tokens that begins with `prefix`,
    /// with filler generated from `seed`. The prefix is counted first.
    pub fn for_prompt(prefix: String, target: usize, seed: u64) -> (r: Self)
        requires
            is_ascii_chars(prefix@),
            target_in_range(target as nat),
        ensures
            r.wf(),
            r.prefix == prefix,
            r.target == target,
            r.seed == seed,
            r.stage is CountPrefix,
            r.counts@ == Map::<Seq<char>, nat>::empty(),
    {
        PromptJob {
            prefix,
            target,
            seed,
            remaining: target,
            stage: Stage::CountPrefix,
            counts: Ghost(Map::empty()),
        }
    }

    /// Starts building a text of `target` tokens with no prefix, with filler
    /// generated from `seed`; the first attempt's text is counted first.
    pub fn for_common_prefix(target: usize, seed: u64) -> (r: Self)
        requires
            target_in_range(target as nat),
        ensures
            r.wf(),
            r.prefix@.len() == 0,
            r.target == target,
            r.seed == seed,
            r.remaining == target,
            r.stage matches Stage::Attempt { attempt, text, .. } && attempt == 1,
            r.counts@ == Map::<Seq<char>, nat>::empty(),
    {
        let prefix = String::new();
        proof {
            estimate_monotone(target as nat, 1, target as nat, 3);
        }
        let filler = seeded_filler(seed, estimate_chars(target, 1));
        let text = prefix.clone().concat(filler.as_str());
        proof {
            assert(text@.take(0) =~= prefix@);
        }
        PromptJob {
            prefix,
            target,
            seed,
            remaining: target,
            stage: Stage::Attempt { attempt: 1, text, filler },
            counts: Ghost(Map::empty()),
        }
    }

    /// What to do next: count a text, or take the finished prompt. A prompt
    /// finished by truncation is the longest start of the text whose count
    /// was seen within the target, as far as the counts show: its own count
    /// is within the target (or it is empty) and the count of the start one
    /// character longer is above it (or it is the whole text).
    pub fn pending(&self) -> (r: PromptStep)
        requires
            self.wf(),
        ensures
            (r is Finished) == self.is_finished(),
            step_text(r) == self.next_text(),
            is_ascii_chars(step_text(r)),
            self.truncation_settled(),
            r is Finished ==> agree_on_common_start(step_text(r), self.prefix@),
            r is Finished ==> lorem_after(step_text(r), self.prefix@.len() as int),
            r is Finished ==> within_budget(self.counts@, step_text(r), self.target as nat),
    {
        match &self.stage {
            Stage::CountPrefix => PromptStep::Count(self.prefix.clone()),
            Stage::Attempt { attempt, text, .. } => PromptStep::Count(text.clone()),
            Stage::Truncate { text, low, high } => {
                if *low < *high {
                    let gap = *high - *low;
                    let mid = *low + gap / 2 + gap % 2;
                    let part = text.as_str().substring_ascii(0, mid);
                    proof {
                        ascii_prefix(text@, mid as int);
                        assert(text@.subrange(0, mid as int) =~= text@.take(mid as int));
                    }
                    PromptStep::Count(part.to_owned())
                } else {
                    let part = text.as_str().substring_ascii(0, *low);
                    proof {
                        ascii_prefix(text@, *low as int);
                        assert(text@.subrange(0, *low as int) =~= text@.take(*low as int));
                        let p = self.prefix@;
                        assert forall|i: int|
                            0 <= i < text@.take(*low as int).len() && 0 <= i < p.len() implies #[trigger] text@.take(
                            *low as int,
                        )[i] == p[i] by {
                            assert(text@.take(p.len() as int)[i] == text@[i]);
                        }
                    }
                    PromptStep::Finished(part.to_owned())
                }
            },
            Stage::Exhausted { text } => {
                proof {
                    let p = self.prefix@;
                    assert forall|i: int| 0 <= i < text@.len() && 0 <= i < p.len() implies #[trigger] text@[i]
                        == p[i] by {
                        assert(text@.take(p.len() as int)[i] == text@[i]);
                    }
                }
                PromptStep::Finished(text.clone())
            },
        }
    }

    /// Hands over the token count of the text that `pending` asked for, and
    /// moves on: a prefix within the target leads to the first attempt, one
    /// that reaches it to its own truncation; an attempt that reaches the
    /// target leads to its truncation, one that falls short to the next
    /// attempt or, after the last, to giving up; a truncation probe within the
    /// target raises the lower end of the search, one above it lowers the
    /// upper end below the probe.
    pub fn observe(&mut self, count: usize)
        requires
            old(self).wf(),
            !old(self).is_finished(),
        ensures
            final(self).wf(),
            final(self).prefix == old(self).prefix,
            final(self).target == old(self).target,
            final(self).seed == old(self).seed,
            final(self).counts@ == old(self).counts@.insert(old(self).next_text(), count as nat),
            stage_follows(*old(self), *final(self), count as nat),
    {
        let ghost q = self.next_text();
        self.counts = Ghost(self.counts@.insert(q, count as nat));
        let next = match &self.stage {
            Stage::CountPrefix => {
                if count >= self.target {
                    let len = self.prefix.as_str().unicode_len();
                    assert(self.prefix@.take(self.prefix@.len() as int) =~= self.prefix@);
                    Stage::Truncate { text: self.prefix.clone(), low: 0, high: len }
                } else {
                    self.remaining = self.target - count;
                    proof {
                        target_in_range_smaller(self.remaining as nat, self.target as nat);
                        estimate_monotone(self.remaining as nat, 1, self.target as nat, 3);
                    }
                    let filler = seeded_filler(self.seed, estimate_chars(self.remaining, 1));
                    let text = self.prefix.clone().concat(filler.as_str());
                    proof {
                        ascii_concat(self.prefix@, filler.chars());
                        assert(text@.take(self.prefix@.len() as int) =~= self.prefix@);
                    }
                    Stage::Attempt { attempt: 1, text, filler }
                }
            },
            Stage::Attempt { attempt, text, .. } => {
                if count >= self.target {
                    let len = text.as_str().unicode_len();
                    Stage::Truncate { text: text.clone(), low: 0, high: len }
                } else if *attempt >= MAX_ATTEMPTS {
                    Stage::Exhausted { text: text.clone() }
                } else {
                    let next_attempt = *attempt + 1;
                    proof {
                        target_in_range_smaller(self.remaining as nat, self.target as nat);
                        estimate_monotone(
                            self.remaining as nat,
                            next_attempt as nat,
                            self.target as nat,
                            3,
                        );
                    }
                    let filler = seeded_filler(
                        self.seed,
                        estimate_chars(self.remaining, next_attempt),
                    );
                    let text = self.prefix.clone().concat(filler.as_str());
                    proof {
                        ascii_concat(self.prefix@, filler.chars());
                        assert(text@.take(self.prefix@.len() as int) =~= self.prefix@);
                    }
                    Stage::Attempt { attempt: next_attempt, text, filler }
                }
            },
            Stage::Truncate { text, low, high } => {
                let gap = *high - *low;
                let mid = *low + gap / 2 + gap % 2;
                proof {
                    assert(mid == midpoint(*low as nat, *high as nat));
                    assert(q == text@.take(mid as int));
                    assert(text@.take(mid as int).len() == mid);
                    if *high < text@.len() {
                        assert(text@.take(*high + 1).len() == *high + 1);
                        assert(text@.take(*high + 1) != q);
                    }
                    if *low > 0 {
                        assert(text@.take(*low as int).len() == *low);
                        assert(text@.take(*low as int) != q);
                    }
                }
                if count <= self.target {
                    Stage::Truncate { text: text.clone(), low: mid, high: *high }
                } else {
                    Stage::Truncate { text: text.clone(), low: *low, high: mid - 1 }
                }
            },
            Stage::Exhausted { text } => Stage::Exhausted { text: text.clone() },
        };
        self.stage = next;
    }
}

/// How one count moves a job from `old` to `new`.
pub open spec fn stage_follows(old: PromptJob, new: PromptJob, count: nat) -> bool {
    match old.stage {
        Stage::CountPrefix => if count >= old.target {
            &&& new.remaining == old.remaining
            &&& new.stage matches Stage::Truncate { text, low, high }
            &&& text@ == old.prefix@
            &&& low == 0
            &&& high == old.prefix@.len()
        } else {
            &&& new.remaining == old.target - count
            &&& new.stage matches Stage::Attempt { attempt, text, .. }
            &&& attempt == 1
        },
        Stage::Attempt { attempt, text, .. } => {
            &&& new.remaining == old.remaining
            &&& if count >= old.target {
                &&& new.stage matches Stage::Truncate { text: t, low, high }
                &&& t@ == text@
                &&& low == 0
                &&& high == text@.len()
            } else if attempt >= MAX_ATTEMPTS {
                &&& new.stage matches Stage::Exhausted { text: t }
                &&& t@ == text@
            } else {
                &&& new.stage matches Stage::Attempt { attempt: a, text: t, .. }
                &&& a == attempt + 1
            }
        },
        Stage::Truncate { text, low, high } => {
            &&& new.remaining == old.remaining
            &&& new.stage matches Stage::Truncate { text: t, low: l, high: h }
            &&& t@ == text@
            &&& if count <= old.target {
                l == midpoint(low as nat, high as nat) && h == high
            } else {
                l == low && h == midpoint(low as nat, high as nat) - 1
            }
        },
        Stage::Exhausted { .. } => false,
    }
}


/// A rank that falls as a job goes from counting its prefix through its
/// attempts to its truncation.
pub open spec fn stage_rank(stage: Stage) -> nat {
    match stage {
        Stage::CountPrefix => 4,
        Stage::Attempt { attempt, text, .. } => if attempt <= 3 {
            (4 - attempt) as nat
        } else {
            0
        },
        _ => 0,
    }
}

/// The width of a truncation search still open.
pub open spec fn search_width(stage: Stage) -> nat {
    match stage {
        Stage::Truncate { text, low, high } => if low <= high {
            (high - low) as nat
        } else {
            0
        },
        _ => 0,
    }
}

/// Building a prompt always ends: each count handed to a job that is not
/// finished either moves it to a later stage (so at most `MAX_ATTEMPTS` texts
/// are generated) or narrows its truncation search.
pub proof fn observing_makes_progress(before: PromptJob, after: PromptJob, count: nat)
    requires
        before.wf(),
        !before.is_finished(),
        stage_follows(before, after, count),
    ensures
        stage_rank(after.stage) < stage_rank(before.stage) || (stage_rank(after.stage)
            == stage_rank(before.stage) && search_width(after.stage) < search_width(
            before.stage,
        )),
{
}

/// The filler of every generation attempt comes from a generator seeded with
/// the job's own seed: the attempt's text is the prefix followed by the start
/// of the sentences that this generator gave, each followed by a space. So
/// jobs with different seeds take their fillers from differently seeded
/// generators, and never share one fixed filler.
pub proof fn attempt_filler_follows_job_seed(job: PromptJob)
    requires
        job.wf(),
        job.stage is Attempt,
    ensures
        job.stage->filler.seed() == job.seed,
        job.stage->Attempt_text@ == job.prefix@ + job.stage->filler.chars(),
        job.stage->filler.chars() == sentence_text(job.stage->filler.sentences()).take(
            job.stage->filler.chars().len() as int,
        ),
{
}

} // verus!
