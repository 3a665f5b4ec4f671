//! A five-letter word-guessing game.
//!
//! The guessing rules are verified here; reading guesses and printing the
//! colored board belong to the surrounding process.

use vstd::prelude::*;

verus! {

use crate::entropy::random_u64;

use crate::wordle::GuessLetterResult::{GRAY, GREEN, YELLOW};
use crate::wordle::GuessResult::{Loss, TryAgain, Win};

/// The verdict on one guessed letter.
#[derive(Clone, Copy, PartialEq, Eq, Structural, Debug)]
pub enum GuessLetterResult {
    /// The letter occurs nowhere in the word.
    GRAY,
    /// The letter occurs in the word, but not at this position.
    YELLOW,
    /// The letter matches this position of the word.
    GREEN,
}

/// The verdict on one guess.
#[derive(Clone, Copy, PartialEq, Eq, Debug)]
pub enum GuessResult {
    /// The guess matched the word.
    Win,
    /// No attempts are left.
    Loss,
    /// The per-letter verdicts; guess again.
    TryAgain { result: [GuessLetterResult; 5] },
}

/// The code of `c` with an ASCII upper-case letter folded to lower case.
pub open spec fn lower_code(c: char) -> u32 {
    if 65 <= c as u32 && c as u32 <= 90 {
        (c as u32 + 32) as u32
    } else {
        c as u32
    }
}

/// The two characters are equal up to ASCII case.
pub open spec fn chars_eq_ic(a: char, b: char) -> bool {
    lower_code(a) == lower_code(b)
}

fn eq_ignore_case(a: char, b: char) -> (r: bool)
    ensures
        r == chars_eq_ic(a, b),
{
    let ua = a as u32;
    let ub = b as u32;
    let la = if 65 <= ua && ua <= 90 { ua + 32 } else { ua };
    let lb = if 65 <= ub && ub <= 90 { ub + 32 } else { ub };
    la == lb
}

/// The verdict on guessing `letter` at `pos` against `word`.
pub open spec fn spec_guess_letter(word: Seq<char>, letter: char, pos: int) -> GuessLetterResult {
    if chars_eq_ic(letter, word[pos]) {
        GREEN
    } else if exists|i: int| 0 <= i < 5 && chars_eq_ic(letter, word[i]) {
        YELLOW
    } else {
        GRAY
    }
}

/// The words the game draws from.
pub open spec fn word_list() -> Seq<Seq<char>> {
    seq!["abeam"@, "abear"@, "abeat"@, "abeng"@]
}

/// One game: a five-letter word and the attempts left to find it.
pub struct Wordle {
    word: String,
    pub attempts_left: u8,
}

impl Wordle {
    /// The word being guessed.
    pub closed spec fn spec_word(&self) -> Seq<char> {
        self.word@
    }

    /// The attempts left.
    pub closed spec fn spec_attempts(&self) -> u8 {
        self.attempts_left
    }

    /// The word has the five letters the guessing rules expect.
    pub open spec fn wf(&self) -> bool {
        self.spec_word().len() == 5
    }

    /// A game over a chosen word, with the usual five attempts.
    pub fn with_word(word: String) -> (w: Wordle)
        requires
            word@.len() == 5,
        ensures
            w.wf(),
            w.spec_word() == word@,
            w.spec_attempts() == 5,
    {
        Wordle { word, attempts_left: 5 }
    }

    /// Scores one guess.  A spent game is a loss; otherwise the guess costs
    /// an attempt, a full match wins, running out of attempts loses, and
    /// anything else reports the five per-letter verdicts.
    pub fn guess(&mut self, guess: String) -> (r: GuessResult)
        requires
            old(self).wf(),
            guess@.len() == 5,
        ensures
            final(self).wf(),
            final(self).spec_word() == old(self).spec_word(),
            old(self).spec_attempts() == 0 ==> r == Loss && final(self).spec_attempts() == 0,
            old(self).spec_attempts() > 0 ==> {
                &&& final(self).spec_attempts() == old(self).spec_attempts() - 1
                &&& if guess@ == old(self).spec_word() {
                    r == Win
                } else if old(self).spec_attempts() == 1 {
                    r == Loss
                } else {
                    r matches (TryAgain { result }) && forall|i: int| 0 <= i < 5
                        ==> result[i] == spec_guess_letter(old(self).spec_word(), guess@[i], i)
                }
            },
    {
        if self.attempts_left == 0 {
            return Loss;
        }
        self.attempts_left = self.attempts_left - 1;
        if guess == self.word {
            return Win;
        }
        if self.attempts_left == 0 {
            return Loss;
        }
        let g = guess.as_str();
        TryAgain {
            result: [
                self.guess_letter(g.get_char(0), 0),
                self.guess_letter(g.get_char(1), 1),
                self.guess_letter(g.get_char(2), 2),
                self.guess_letter(g.get_char(3), 3),
                self.guess_letter(g.get_char(4), 4),
            ],
        }
    }

    /// Scores one letter of a guess: green on a positional match, yellow
    /// when the letter occurs elsewhere in the word, gray otherwise.
    pub fn guess_letter(&self, letter: char, pos: usize) -> (r: GuessLetterResult)
        requires
            self.wf(),
            pos < 5,
        ensures
            r == spec_guess_letter(self.spec_word(), letter, pos as int),
    {
        let w = self.word.as_str();
        if eq_ignore_case(letter, w.get_char(pos)) {
            return GREEN;
        }
        let mut i: usize = 0;
        while i < 5
            invariant
                i <= 5,
                self.wf(),
                pos < 5,
                w@ == self.spec_word(),
                !chars_eq_ic(letter, self.spec_word()[pos as int]),
                forall|j: int| 0 <= j < i ==> !chars_eq_ic(letter, self.spec_word()[j]),
            decreases 5 - i,
        {
            if eq_ignore_case(letter, w.get_char(i)) {
                return YELLOW;
            }
            i += 1;
        }
        GRAY
    }
}

impl Default for Wordle {
    /// A game over a word drawn at random from [`word_list`], with the
    /// usual five attempts.
    fn default() -> (w: Wordle)
        ensures
            w.wf(),
            w.spec_attempts() == 5,
            exists|i: int| 0 <= i < 4 && w.spec_word() == word_list()[i],
    {
        let k = random_u64() % 4;
        proof {
            reveal_strlit("abeam");
            reveal_strlit("abear");
            reveal_strlit("abeat");
            reveal_strlit("abeng");
        }
        let word = match k {
            0 => "abeam",
            1 => "abear",
            2 => "abeat",
            _ => "abeng",
        };
        let w = Wordle { word: word.to_owned(), attempts_left: 5 };
        proof {
            if k == 0 {
                assert(w.spec_word() == word_list()[0]);
            } else if k == 1 {
                assert(w.spec_word() == word_list()[1]);
            } else if k == 2 {
                assert(w.spec_word() == word_list()[2]);
            } else {
                assert(w.spec_word() == word_list()[3]);
            }
        }
        w
    }
}

} // verus!
