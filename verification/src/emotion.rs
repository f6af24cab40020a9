//! The closed emotion vocabulary a record can be classified into.

use vstd::prelude::*;
use crate::text::str_eq;

verus! {

/// The sentiment labels the classifier may assign. The set is closed: a
/// record's emotion is one of these or not yet set.
#[derive(Clone, Copy, Debug, PartialEq, Eq, Structural)]
pub enum Emotion {
    Anger,
    Sadness,
    Happiness,
    Neutral,
}

/// The label under which an emotion is stored and reported.
pub open spec fn spec_emotion_label(e: Emotion) -> Seq<char> {
    match e {
        Emotion::Anger => "anger"@,
        Emotion::Sadness => "sadness"@,
        Emotion::Happiness => "happiness"@,
        Emotion::Neutral => "neutral"@,
    }
}

/// The emotion a classifier reply names, if it names one at all.
pub open spec fn spec_emotion_of_label(s: Seq<char>) -> Option<Emotion> {
    if s == "anger"@ {
        Some(Emotion::Anger)
    } else if s == "sadness"@ {
        Some(Emotion::Sadness)
    } else if s == "happiness"@ {
        Some(Emotion::Happiness)
    } else if s == "neutral"@ {
        Some(Emotion::Neutral)
    } else {
        None
    }
}

impl Emotion {
    /// The emotion's label text.
    pub fn label(&self) -> (r: String)
        ensures
            r@ == spec_emotion_label(*self),
    {
        match self {
            Emotion::Anger => "anger".to_owned(),
            Emotion::Sadness => "sadness".to_owned(),
            Emotion::Happiness => "happiness".to_owned(),
            Emotion::Neutral => "neutral".to_owned(),
        }
    }

    /// Reads a label back into an emotion; anything outside the closed
    /// vocabulary is rejected.
    pub fn from_label(s: &str) -> (r: Option<Emotion>)
        ensures
            r == spec_emotion_of_label(s@),
    {
        if str_eq(s, "anger") {
            Some(Emotion::Anger)
        } else if str_eq(s, "sadness") {
            Some(Emotion::Sadness)
        } else if str_eq(s, "happiness") {
            Some(Emotion::Happiness)
        } else if str_eq(s, "neutral") {
            Some(Emotion::Neutral)
        } else {
            None
        }
    }
}

/// Labels are faithful: every emotion's label parses back to that emotion,
/// and to no other.
pub proof fn lemma_emotion_label_round_trip(e: Emotion)
    ensures
        spec_emotion_of_label(spec_emotion_label(e)) == Some(e),
{
    reveal_strlit("anger");
    reveal_strlit("sadness");
    reveal_strlit("happiness");
    reveal_strlit("neutral");
    match e {
        Emotion::Anger => {
        },
        Emotion::Sadness => {
            assert(spec_emotion_label(e).len() == 7);
            assert(spec_emotion_label(e) != "anger"@);
        },
        Emotion::Happiness => {
            assert(spec_emotion_label(e).len() == 9);
            assert(spec_emotion_label(e) != "anger"@);
            assert(spec_emotion_label(e) != "sadness"@);
        },
        Emotion::Neutral => {
            assert(spec_emotion_label(e).len() == 7);
            assert(spec_emotion_label(e) != "anger"@);
            assert(spec_emotion_label(e)[0] != "sadness"@[0]);
            assert(spec_emotion_label(e) != "sadness"@);
            assert(spec_emotion_label(e) != "happiness"@);
        },
    }
}

} // verus!
