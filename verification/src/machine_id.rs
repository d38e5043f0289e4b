//! The name that a machine gives itself.

use vstd::prelude::*;

use crate::casing;
use crate::text;
use crate::text::join2;
use crate::text::trim;

use rand::distributions::Alphanumeric;
use rand::Rng;

verus! {

/// An ASCII letter or digit.
pub open spec fn alphanumeric(c: char) -> bool {
    'A' <= c <= 'Z' || 'a' <= c <= 'z' || '0' <= c <= '9'
}

/// A capital ASCII letter or a digit.
pub open spec fn capital_or_digit(c: char) -> bool {
    'A' <= c <= 'Z' || '0' <= c <= '9'
}

/// `Rng::sample` of `Alphanumeric` on `rand::thread_rng`: any ASCII letter or
/// digit; which one is left open. The generator is seeded by the operating
/// system, and there is no result on a system that has no random numbers to
/// give.
#[verifier::external_body]
fn random_alphanumeric() -> (r: char)
    ensures
        alphanumeric(r),
{
    rand::thread_rng().sample(Alphanumeric) as char
}

/// The name of a machine that drew `letters`.
pub open spec fn id_of(letters: Seq<char>) -> Seq<char> {
    "OKO-"@ + casing::upper_case(letters)
}

/// The name of a machine that drew `letters`.
pub fn machine_id_of(letters: &str) -> (r: String)
    ensures
        r@ == id_of(letters@),
{
    let upper = letters.to_uppercase();
    join2("OKO-", upper.as_str())
}

/// A name as a machine draws it: eight capitals or digits behind `OKO-`.
pub open spec fn is_drawn_id(id: Seq<char>) -> bool {
    &&& id.len() == 12
    &&& text::has_prefix(id, "OKO-"@)
    &&& forall|i: int| 4 <= i < 12 ==> capital_or_digit(#[trigger] id[i])
}

/// The letter was drawn.
pub closed spec fn drawn(c: char) -> bool {
    call_ensures(random_alphanumeric, (), c)
}

/// Draws a name.
pub fn draw_machine_id() -> (r: String)
    ensures
        is_drawn_id(r@),
        exists|letters: Seq<char>|
            {
                &&& letters.len() == 8
                &&& forall|i: int| 0 <= i < 8 ==> drawn(#[trigger] letters[i])
                &&& r@ == #[trigger] id_of(letters)
            },
{
    let mut letters = String::new();
    let mut n: usize = 0;
    while n < 8
        invariant
            n <= 8,
            letters@.len() == n,
            forall|i: int| 0 <= i < n ==> alphanumeric(#[trigger] letters@[i]),
            forall|i: int| 0 <= i < n ==> drawn(#[trigger] letters@[i]),
        decreases 8 - n,
    {
        let c = random_alphanumeric();
        assert(drawn(c));
        letters.push(c);
        n = n + 1;
    }
    let id = machine_id_of(letters.as_str());
    proof {
        reveal_strlit("OKO-");
        assert(text::all_ascii(letters@));
        let upper = casing::ascii_uppercase(letters@);
        assert(id@ == "OKO-"@ + upper);
        assert(id@.subrange(0, 4) == "OKO-"@);
        assert forall|i: int| 4 <= i < 12 implies capital_or_digit(#[trigger] id@[i]) by {
            assert(id@[i] == upper[i - 4]);
            assert(alphanumeric(letters@[i - 4]));
        }
    }
    id
}

/// The name that a file tells: its content without the white space round it,
/// none where nothing is left.
pub open spec fn stored_id(content: Seq<char>) -> Option<Seq<char>> {
    if text::trimmed(content).len() == 0 {
        None
    } else {
        Some(text::trimmed(content))
    }
}

/// The name that a file tells.
pub fn stored_machine_id(content: &str) -> (r: Option<String>)
    ensures
        match r {
            Some(id) => stored_id(content@) == Some(id@),
            None => stored_id(content@) is None,
        },
{
    let id = trim(content);
    if id.as_str().is_empty() {
        None
    } else {
        Some(id)
    }
}

/// The name of this machine.
#[derive(Debug)]
pub struct MachineId {
    pub id: String,
    /// The name was drawn just now and is still to be stored.
    pub fresh: bool,
}

/// The name of this machine: what its file tells or, where there is no file or
/// it tells none, a name that is drawn.
pub fn get_or_create_machine_id(content: Option<&str>) -> (r: MachineId)
    ensures
        content is Some && stored_id(content->0@) is Some ==> !r.fresh && stored_id(content->0@)
            == Some(r.id@),
        content is None || stored_id(content->0@) is None ==> r.fresh && is_drawn_id(r.id@),
{
    let stored = match content {
        Some(text) => stored_machine_id(text),
        None => None,
    };
    match stored {
        Some(id) => MachineId { id, fresh: false },
        None => MachineId { id: draw_machine_id(), fresh: true },
    }
}

/// A drawn name that was stored is read back as it is.
pub proof fn law_drawn_id_is_read_back(id: Seq<char>)
    requires
        is_drawn_id(id),
    ensures
        stored_id(id) == Some(id),
{
    reveal_strlit("OKO-");
    assert(id.subrange(0, 4)[0] == 'O');
    assert(capital_or_digit(id[11]));
    text::lemma_trimmed_solid(id);
}

/// A stored name that was read is read the same again.
pub proof fn law_stored_id_is_stable(content: Seq<char>)
    requires
        stored_id(content) is Some,
    ensures
        stored_id(stored_id(content)->0) == stored_id(content),
{
    text::lemma_trimmed_twice(content);
}

/// The name of a machine holds the letters that it drew, in capitals and in
/// their order, behind its head.
pub proof fn law_letters_make_the_name(letters: Seq<char>, i: int)
    requires
        text::all_ascii(letters),
        0 <= i < letters.len(),
    ensures
        id_of(letters).len() == 4 + letters.len(),
        id_of(letters).take(4) == "OKO-"@,
        id_of(letters)[4 + i] == (if 'a' <= letters[i] <= 'z' {
            (letters[i] as u32 - 32) as char
        } else {
            letters[i]
        }),
{
    reveal_strlit("OKO-");
    assert(id_of(letters).take(4) =~= "OKO-"@);
}

/// A file tells the name that stands in it, white space aside; without anything
/// else in it, none.
pub proof fn law_file_tells_the_name(content: Seq<char>)
    ensures
        stored_id(content) is None <==> forall|i: int|
            0 <= i < content.len() ==> text::is_white(#[trigger] content[i]),
        stored_id(content) matches Some(id) ==> id == text::trimmed(content) && id.len() > 0,
{
    text::law_trimmed_is_the_middle(content);
}

/// A drawn name is eight capital letters or digits behind its head.
pub proof fn law_drawn_names(id: Seq<char>, i: int)
    requires
        is_drawn_id(id),
        4 <= i < 12,
    ensures
        id.len() == 12,
        "OKO-"@.is_prefix_of(id),
        'A' <= id[i] <= 'Z' || '0' <= id[i] <= '9',
{
    reveal_strlit("OKO-");
}

/// What is drawn is a letter or a digit.
pub proof fn law_drawn_letters(c: char)
    requires
        drawn(c),
    ensures
        'A' <= c <= 'Z' || 'a' <= c <= 'z' || '0' <= c <= '9',
{
}

} // verus!
