use vstd::prelude::*;

verus! {

/// The words of `list` written one after another with `sep` between each
/// two neighbours (no separator before the first or after the last word).
pub open spec fn seq_join(list: Seq<Seq<char>>, sep: Seq<char>) -> Seq<char>
    decreases list.len(),
{
    if list.len() == 0 {
        Seq::empty()
    } else if list.len() == 1 {
        list[0]
    } else {
        seq_join(list.drop_last(), sep) + sep + list.last()
    }
}

/// Joining no words gives nothing, joining one word gives that word, and a
/// word added after a non-empty list is written after the join of the list
/// and one separator.
pub proof fn lemma_seq_join_laws(list: Seq<Seq<char>>, sep: Seq<char>, word: Seq<char>)
    ensures
        seq_join(Seq::empty(), sep) == Seq::<char>::empty(),
        seq_join(seq![word], sep) == word,
        list.len() > 0 ==> seq_join(list.push(word), sep) == seq_join(list, sep) + sep + word,
{
    assert(list.push(word).drop_last() =~= list);
}

/// The character views of a vector of strings.
pub open spec fn views(strings: Seq<String>) -> Seq<Seq<char>> {
    strings.map_values(|s: String| s@)
}

/// Joins `words` with `sep` between neighbours.
pub fn join_words(words: &Vec<String>, sep: &str) -> (joined: String)
    ensures
        joined@ == seq_join(views(words@), sep@),
{
    let mut joined = String::new();
    let n = words.len();
    let ghost all = views(words@);
    let mut i: usize = 0;
    while i < n
        invariant
            n == words@.len(),
            all == views(words@),
            0 <= i <= n,
            joined@ == seq_join(all.take(i as int), sep@),
        decreases n - i,
    {
        assert(all.take(i + 1).drop_last() =~= all.take(i as int));
        if i != 0 {
            joined.append(sep);
        } else {
            assert(all.take(0) =~= Seq::<Seq<char>>::empty());
        }
        joined.append(words[i].as_str());
        i = i + 1;
    }
    assert(all.take(n as int) =~= all);
    joined
}

/// Whether two string slices hold the same characters.
pub fn same_text(a: &str, b: &str) -> (same: bool)
    ensures
        same == (a@ == b@),
{
    let a_owned = a.to_owned();
    let b_owned = b.to_owned();
    a_owned == b_owned
}

} // verus!
