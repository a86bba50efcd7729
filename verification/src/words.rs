use vstd::prelude::*;

use crate::keys::is_lower_letter;
use crate::types::Wordle;

verus! {

/// The number of letters in a word.
pub const WORD_LENGTH: usize = 5;

/// A Wordle word: five lowercase ASCII letters.
pub open spec fn is_word(w: Seq<char>) -> bool {
    &&& w.len() == WORD_LENGTH
    &&& forall|i: int| 0 <= i < w.len() ==> is_lower_letter(#[trigger] w[i])
}

/// The words that a game may ask for, in the order they are listed: a small
/// built-in list of common words.
pub open spec fn answer_words() -> Seq<&'static str> {
    seq![
        "apple", "brave", "chair", "dance", "eagle", "fable", "giant", "habit",
        "image", "jolly", "knife", "lemon", "mango", "noble", "ocean", "piano",
        "queen", "river", "sugar", "table", "uncle", "vivid", "whale", "young",
        "zebra", "bread", "cloud", "dream", "flame", "grape", "heart", "ivory",
        "juice", "koala", "light", "magic", "night", "olive", "pearl", "quiet",
        "robin", "stone", "tiger", "unity", "voice", "water", "yield", "plant",
        "smile", "storm", "train", "world",
    ]
}

/// The words that may be guessed besides the answers: a small built-in list.
pub open spec fn extra_guess_words() -> Seq<&'static str> {
    seq![
        "adore", "badge", "cabin", "daisy", "elbow", "fancy", "ghost", "hazel",
        "index", "jewel", "kneel", "lunar", "maple", "nerve", "orbit", "petal",
        "quilt", "raven", "salad", "thumb", "urban", "valve", "waltz", "xenon",
        "yacht", "zesty", "amber", "blend", "crisp", "dwell", "ember", "frost",
        "gleam", "hound", "inlet", "jumbo", "karma", "latch", "moose", "nudge",
        "oasis", "prism", "quota", "reign", "shelf", "tulip", "usher", "vapor",
        "wheat",
    ]
}

/// The words that may be guessed: every answer, then the other guessable
/// words.
pub open spec fn allowed_words() -> Seq<&'static str> {
    answer_words() + extra_guess_words()
}

/// Whether `w` is one of the guessable words.
pub open spec fn is_allowed(w: Seq<char>) -> bool {
    exists|i: int| 0 <= i < allowed_words().len() && (#[trigger] allowed_words()[i])@ == w
}

impl Wordle {
    /// The words that a game may ask for.
    pub fn answer_list() -> (r: Vec<&'static str>)
        ensures
            r@ == answer_words(),
    {
        let r = vec![
            "apple", "brave", "chair", "dance", "eagle", "fable", "giant", "habit",
            "image", "jolly", "knife", "lemon", "mango", "noble", "ocean", "piano",
            "queen", "river", "sugar", "table", "uncle", "vivid", "whale", "young",
            "zebra", "bread", "cloud", "dream", "flame", "grape", "heart", "ivory",
            "juice", "koala", "light", "magic", "night", "olive", "pearl", "quiet",
            "robin", "stone", "tiger", "unity", "voice", "water", "yield", "plant",
            "smile", "storm", "train", "world",
        ];
        assert(r@ == answer_words());
        r
    }

    /// The words that may be guessed.
    pub fn allowed_list() -> (r: Vec<&'static str>)
        ensures
            r@ == allowed_words(),
    {
        let mut r = Wordle::answer_list();
        let mut extra = vec![
            "adore", "badge", "cabin", "daisy", "elbow", "fancy", "ghost", "hazel",
            "index", "jewel", "kneel", "lunar", "maple", "nerve", "orbit", "petal",
            "quilt", "raven", "salad", "thumb", "urban", "valve", "waltz", "xenon",
            "yacht", "zesty", "amber", "blend", "crisp", "dwell", "ember", "frost",
            "gleam", "hound", "inlet", "jumbo", "karma", "latch", "moose", "nudge",
            "oasis", "prism", "quota", "reign", "shelf", "tulip", "usher", "vapor",
            "wheat",
        ];
        assert(extra@ == extra_guess_words());
        r.append(&mut extra);
        assert(r@ == allowed_words());
        r
    }
}

/// Every answer is a word of five lowercase letters.
pub proof fn lemma_answers_are_words()
    ensures
        forall|i: int| 0 <= i < answer_words().len() ==> is_word(#[trigger] answer_words()[i]@),
{
    reveal_strlit("apple");
    reveal_strlit("brave");
    reveal_strlit("chair");
    reveal_strlit("dance");
    reveal_strlit("eagle");
    reveal_strlit("fable");
    reveal_strlit("giant");
    reveal_strlit("habit");
    reveal_strlit("image");
    reveal_strlit("jolly");
    reveal_strlit("knife");
    reveal_strlit("lemon");
    reveal_strlit("mango");
    reveal_strlit("noble");
    reveal_strlit("ocean");
    reveal_strlit("piano");
    reveal_strlit("queen");
    reveal_strlit("river");
    reveal_strlit("sugar");
    reveal_strlit("table");
    reveal_strlit("uncle");
    reveal_strlit("vivid");
    reveal_strlit("whale");
    reveal_strlit("young");
    reveal_strlit("zebra");
    reveal_strlit("bread");
    reveal_strlit("cloud");
    reveal_strlit("dream");
    reveal_strlit("flame");
    reveal_strlit("grape");
    reveal_strlit("heart");
    reveal_strlit("ivory");
    reveal_strlit("juice");
    reveal_strlit("koala");
    reveal_strlit("light");
    reveal_strlit("magic");
    reveal_strlit("night");
    reveal_strlit("olive");
    reveal_strlit("pearl");
    reveal_strlit("quiet");
    reveal_strlit("robin");
    reveal_strlit("stone");
    reveal_strlit("tiger");
    reveal_strlit("unity");
    reveal_strlit("voice");
    reveal_strlit("water");
    reveal_strlit("yield");
    reveal_strlit("plant");
    reveal_strlit("smile");
    reveal_strlit("storm");
    reveal_strlit("train");
    reveal_strlit("world");
    assert forall|i: int| 0 <= i < answer_words().len() implies is_word(
        #[trigger] answer_words()[i]@,
    ) by {
        assert(answer_words()[i]@.len() == WORD_LENGTH);
    }
}

/// Every guessable word is a word of five lowercase letters.
pub proof fn lemma_allowed_are_words()
    ensures
        forall|i: int| 0 <= i < allowed_words().len() ==> is_word(#[trigger] allowed_words()[i]@),
{
    lemma_answers_are_words();
    reveal_strlit("adore");
    reveal_strlit("badge");
    reveal_strlit("cabin");
    reveal_strlit("daisy");
    reveal_strlit("elbow");
    reveal_strlit("fancy");
    reveal_strlit("ghost");
    reveal_strlit("hazel");
    reveal_strlit("index");
    reveal_strlit("jewel");
    reveal_strlit("kneel");
    reveal_strlit("lunar");
    reveal_strlit("maple");
    reveal_strlit("nerve");
    reveal_strlit("orbit");
    reveal_strlit("petal");
    reveal_strlit("quilt");
    reveal_strlit("raven");
    reveal_strlit("salad");
    reveal_strlit("thumb");
    reveal_strlit("urban");
    reveal_strlit("valve");
    reveal_strlit("waltz");
    reveal_strlit("xenon");
    reveal_strlit("yacht");
    reveal_strlit("zesty");
    reveal_strlit("amber");
    reveal_strlit("blend");
    reveal_strlit("crisp");
    reveal_strlit("dwell");
    reveal_strlit("ember");
    reveal_strlit("frost");
    reveal_strlit("gleam");
    reveal_strlit("hound");
    reveal_strlit("inlet");
    reveal_strlit("jumbo");
    reveal_strlit("karma");
    reveal_strlit("latch");
    reveal_strlit("moose");
    reveal_strlit("nudge");
    reveal_strlit("oasis");
    reveal_strlit("prism");
    reveal_strlit("quota");
    reveal_strlit("reign");
    reveal_strlit("shelf");
    reveal_strlit("tulip");
    reveal_strlit("usher");
    reveal_strlit("vapor");
    reveal_strlit("wheat");
    assert forall|i: int| 0 <= i < allowed_words().len() implies is_word(
        #[trigger] allowed_words()[i]@,
    ) by {
        if i < answer_words().len() {
            assert(allowed_words()[i] == answer_words()[i]);
        } else {
            assert(allowed_words()[i] == extra_guess_words()[i - answer_words().len()]);
        }
    }
}

/// Every answer may be guessed, so every game can be won.
pub proof fn lemma_answers_are_allowed()
    ensures
        forall|i: int| 0 <= i < answer_words().len() ==> is_allowed(#[trigger] answer_words()[i]@),
{
    assert forall|i: int| 0 <= i < answer_words().len() implies is_allowed(
        #[trigger] answer_words()[i]@,
    ) by {
        assert(allowed_words()[i] == answer_words()[i]);
    }
}

} // verus!
