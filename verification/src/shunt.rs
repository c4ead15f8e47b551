//! Which method handles an event or a request, by name.

use vstd::prelude::*;

verus! {

/// Whether a byte is an ASCII capital.
pub open spec fn is_capital(byte: u8) -> bool {
    65 <= byte <= 90
}

/// A byte with an ASCII capital made small.
pub open spec fn small(byte: u8) -> u8 {
    if is_capital(byte) {
        (byte + 32) as u8
    } else {
        byte
    }
}

/// A name in words that start with capitals, written small with underscores before the words.
pub open spec fn snake_case(name: Seq<u8>) -> Seq<u8>
    decreases name.len(),
{
    if name.len() == 0 {
        Seq::empty()
    } else {
        let before = snake_case(name.drop_last());
        let last = name.last();
        if name.len() > 1 && is_capital(last) {
            before + seq![95u8, small(last)]
        } else {
            before.push(small(last))
        }
    }
}

/// The name that is a word of the language.
pub open spec fn keyword() -> Seq<u8> {
    seq![116u8, 121, 112, 101]
}

/// The name of the method for an event.
pub open spec fn method_of(name: Seq<u8>) -> Seq<u8> {
    if snake_case(name) == keyword() {
        seq![95u8] + snake_case(name)
    } else {
        snake_case(name)
    }
}

/// The name of the method that handles an event of the given name.
pub fn method_name(name: &[u8]) -> (method: Vec<u8>)
    ensures
        method@ == method_of(name@),
{
    let mut method: Vec<u8> = Vec::new();
    let mut i: usize = 0;
    assert(method@ =~= snake_case(name@.take(0)));
    while i < name.len()
        invariant
            i <= name@.len(),
            method@ == snake_case(name@.take(i as int)),
        decreases name.len() - i,
    {
        let byte = name[i];
        let ghost so_far = method@;
        let capital = 65 <= byte && byte <= 90;
        if i != 0 && capital {
            method.push(95);
        }
        method.push(
            if capital {
                byte + 32
            } else {
                byte
            },
        );
        proof {
            assert(name@.take(i as int + 1).drop_last() =~= name@.take(i as int));
            assert(name@.take(i as int + 1).last() == byte);
            assert(method@ =~= snake_case(name@.take(i as int + 1)));
        }
        i += 1;
    }
    assert(name@.take(i as int) =~= name@);
    if method.len() == 4 && method[0] == 116 && method[1] == 121 && method[2] == 112 && method[3]
        == 101 {
        assert(method@ =~= keyword());
        let ghost plain = method@;
        method.insert(0, 95);
        assert(method@ =~= seq![95u8] + plain);
    } else {
        assert(method@ != keyword());
    }
    method
}

/// No method is named with a capital.
pub proof fn law_methods_are_written_small(name: Seq<u8>, k: int)
    requires
        0 <= k < method_of(name).len(),
    ensures
        !is_capital(method_of(name)[k]),
{
    assert forall|j: int| 0 <= j < snake_case(name).len() implies !is_capital(
        #[trigger] snake_case(name)[j],
    ) by {
        lemma_written_small(name, j);
    }
}

proof fn lemma_written_small(name: Seq<u8>, k: int)
    requires
        0 <= k < snake_case(name).len(),
    ensures
        !is_capital(snake_case(name)[k]),
    decreases name.len(),
{
    let before = snake_case(name.drop_last());
    if k < before.len() {
        lemma_written_small(name.drop_last(), k);
    }
}

/// A name is written as a method by its words: without the lines between them it is the name itself
/// in small letters, and a line stands before each capital but the first letter.
pub proof fn law_words_are_kept(name: Seq<u8>)
    ensures
        snake_case(name).len() >= name.len(),
        name.len() > 0 && !(65 <= name.last() <= 90) ==> snake_case(name).last() == name.last(),
        name.len() > 0 && 65 <= name.last() <= 90 ==> snake_case(name).last() == name.last() + 32,
        name.len() > 1 && 65 <= name.last() <= 90 ==> snake_case(name)[snake_case(name).len() - 2]
            == 95,
        (forall|k: int| 0 <= k < name.len() ==> !(65 <= #[trigger] name[k] <= 90))
            ==> snake_case(name) == name,
    decreases name.len(),
{
    if name.len() > 0 {
        law_words_are_kept(name.drop_last());
        if forall|k: int| 0 <= k < name.len() ==> !(65 <= #[trigger] name[k] <= 90) {
            assert forall|k: int| 0 <= k < name.drop_last().len() implies !(65
                <= #[trigger] name.drop_last()[k] <= 90) by {
                assert(name.drop_last()[k] == name[k]);
            }
            assert(name.last() == name[name.len() - 1]);
            assert(snake_case(name) =~= name);
        }
    }
}

/// Only the name that is a word of the language gets a line before it.
pub proof fn law_only_the_keyword_is_marked(name: Seq<u8>)
    ensures
        snake_case(name) != seq![116u8, 121, 112, 101] ==> method_of(name) == snake_case(name),
        snake_case(name) == seq![116u8, 121, 112, 101] ==> method_of(name) =~= seq![
            95u8,
            116,
            121,
            112,
            101,
        ],
{
}

} // verus!
