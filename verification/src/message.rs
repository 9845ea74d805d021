//! Commit messages for commits that were given none.

use vstd::prelude::*;
use vstd::string::*;

use crate::outcome::join;

verus! {

/// Whether `c` can stand in a generated phrase: a lowercase letter of the
/// basic Latin alphabet, or a hyphen.
pub open spec fn is_phrase_char(c: char) -> bool {
    ('a' <= c && c <= 'z') || c == '-'
}

/// Whether `s` has the form of a generated phrase: words of lowercase
/// letters, at least two, joined by hyphens.
pub open spec fn is_phrase(s: Seq<char>) -> bool {
    &&& s.len() > 0
    &&& s.contains('-')
    &&& forall|i: int| 0 <= i < s.len() ==> is_phrase_char(#[trigger] s[i])
}

/// A phrase from the default generator of the `names` crate: an adjective and
/// a noun of its built-in word lists, picked at random and joined by a hyphen.
/// `Generator::default().next()` formats the two words around a literal `-`,
/// and every word of both lists is made of lowercase letters `a` to `z` and
/// hyphens. So the phrase holds a hyphen, is not empty, and holds nothing but
/// such letters and hyphens; which words were picked is not claimed.
#[verifier::external_body]
fn random_phrase() -> (phrase: String)
    ensures
        is_phrase(phrase@),
{
    let mut generator = names::Generator::default();
    generator.next().unwrap()
}

/// The message made of a phrase: the phrase itself, or the phrase behind
/// `feat: ` where the conventional format is asked for.
pub open spec fn composed(phrase: Seq<char>, conventional: bool) -> Seq<char> {
    if conventional {
        "feat: "@ + phrase
    } else {
        phrase
    }
}

/// Whether `message` is a message that generation can give: the message made
/// of some phrase of the generated form.
pub open spec fn is_generated(message: Seq<char>, conventional: bool) -> bool {
    exists|phrase: Seq<char>|
        is_phrase(phrase) && message == #[trigger] composed(phrase, conventional)
}

/// A message built from a non-empty phrase is not empty, and in the
/// conventional format it begins with `feat: `.
pub proof fn lemma_composed_message(phrase: Seq<char>, conventional: bool)
    requires
        phrase.len() > 0,
    ensures
        composed(phrase, conventional).len() > 0,
        conventional ==> "feat: "@.is_prefix_of(composed(phrase, conventional)),
{
    if conventional {
        assert(("feat: "@ + phrase).subrange(0, "feat: "@.len() as int) =~= "feat: "@);
    }
}

/// A generated message is never empty, and it begins with `feat: ` in the
/// conventional format and in no other: a phrase holds no colon.
pub proof fn lemma_generated_message(message: Seq<char>, conventional: bool)
    requires
        is_generated(message, conventional),
    ensures
        message.len() > 0,
        conventional <==> "feat: "@.is_prefix_of(message),
{
    let phrase = choose|phrase: Seq<char>|
        is_phrase(phrase) && message == #[trigger] composed(phrase, conventional);
    lemma_composed_message(phrase, conventional);
    if !conventional && "feat: "@.is_prefix_of(message) {
        reveal_strlit("feat: ");
        assert("feat: "@.len() == 6);
        assert(message.subrange(0, 6)[4] == "feat: "@[4]);
        assert(message[4] == ':');
        assert(is_phrase_char(message[4]));
    }
}

/// Builds the commit message for a given phrase.
pub fn compose_message(phrase: String, conventional: bool) -> (message: String)
    ensures
        message@ == composed(phrase@, conventional),
{
    if conventional {
        join("feat: ", phrase.as_str())
    } else {
        phrase
    }
}

/// Generates a commit message around a random phrase.
///
/// The configured template is accepted and not used: in the conventional
/// format the phrase follows the fixed prefix `feat: `, otherwise the phrase
/// stands alone. Which phrase is drawn is open; its form is not.
pub fn generate_commit_message(template: &str, conventional: bool) -> (message: String)
    ensures
        is_generated(message@, conventional),
        message@.len() > 0,
        conventional <==> "feat: "@.is_prefix_of(message@),
{
    let phrase = random_phrase();
    let message = compose_message(phrase, conventional);
    proof {
        assert(message@ == composed(phrase@, conventional));
        lemma_generated_message(message@, conventional);
    }
    message
}

} // verus!
