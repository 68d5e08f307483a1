use vstd::prelude::*;

verus! {

/// The arguments of one `add` invocation: the name, then `--dev` when asked,
/// then `--features <csv>` when features are known, then `--version <v>`.
pub open spec fn add_invocation(
    name: Seq<char>,
    dev: bool,
    features: Option<Seq<char>>,
    version: Option<Seq<char>>,
) -> Seq<Seq<char>> {
    seq!["add"@, name] + (if dev {
        seq!["--dev"@]
    } else {
        Seq::empty()
    }) + match features {
        Some(f) => seq!["--features"@, f],
        None => Seq::empty(),
    } + match version {
        Some(v) => seq!["--version"@, v],
        None => Seq::empty(),
    }
}

/// The entries of `items` at the positions `picks`, in the order of `picks`.
pub open spec fn picked(items: Seq<Seq<char>>, picks: Seq<usize>) -> Seq<Seq<char>> {
    picks.map_values(|i: usize| items[i as int])
}

/// The entries of `ws` joined with commas between them.
pub open spec fn comma_join(ws: Seq<Seq<char>>) -> Seq<char>
    decreases ws.len(),
{
    if ws.len() == 0 {
        Seq::empty()
    } else if ws.len() == 1 {
        ws[0]
    } else {
        comma_join(ws.drop_last()) + seq![','] + ws.last()
    }
}

/// The feature list that a selection gives: none for an empty selection,
/// else the picked entries joined with commas.
pub open spec fn chosen_features(items: Seq<Seq<char>>, picks: Seq<usize>) -> Option<Seq<char>> {
    if picks.len() == 0 {
        None
    } else {
        Some(comma_join(picked(items, picks)))
    }
}

/// Builds the arguments of the `add` invocation for one dependency.
pub fn add_args(name: &String, dev: bool, features: &Option<String>, version: &Option<String>) -> (r: Vec<String>)
    ensures
        r.deep_view() == add_invocation(name@, dev, features.deep_view(), version.deep_view()),
{
    let mut r: Vec<String> = Vec::new();
    r.push("add".to_owned());
    r.push(name.clone());
    proof {
        assert(r.deep_view() =~= seq!["add"@, name@]);
    }
    if dev {
        let ghost before = r.deep_view();
        r.push("--dev".to_owned());
        assert(r.deep_view() =~= before + seq!["--dev"@]);
    } else {
        assert(r.deep_view() =~= r.deep_view() + Seq::<Seq<char>>::empty());
    }
    let ghost mid = r.deep_view();
    match features {
        Some(f) => {
            r.push("--features".to_owned());
            r.push(f.clone());
            assert(r.deep_view() =~= mid + seq!["--features"@, f@]);
        },
        None => {
            assert(r.deep_view() =~= mid + Seq::<Seq<char>>::empty());
        },
    }
    let ghost mid2 = r.deep_view();
    match version {
        Some(v) => {
            r.push("--version".to_owned());
            r.push(v.clone());
            assert(r.deep_view() =~= mid2 + seq!["--version"@, v@]);
        },
        None => {
            assert(r.deep_view() =~= mid2 + Seq::<Seq<char>>::empty());
        },
    }
    r
}

/// Builds `<verb> <name>`.
pub fn verb_with_name(verb: &str, name: &String) -> (r: Vec<String>)
    ensures
        r.deep_view() == seq![verb@, name@],
{
    let mut r: Vec<String> = Vec::new();
    r.push(verb.to_owned());
    r.push(name.clone());
    assert(r.deep_view() =~= seq![verb@, name@]);
    r
}

/// Builds `<word>`.
pub fn single_arg(word: &str) -> (r: Vec<String>)
    ensures
        r.deep_view() == seq![word@],
{
    let mut r: Vec<String> = Vec::new();
    r.push(word.to_owned());
    assert(r.deep_view() =~= seq![word@]);
    r
}

/// Builds `<first> <second>`.
pub fn pair_args(first: &str, second: &str) -> (r: Vec<String>)
    ensures
        r.deep_view() == seq![first@, second@],
{
    let mut r: Vec<String> = Vec::new();
    r.push(first.to_owned());
    r.push(second.to_owned());
    assert(r.deep_view() =~= seq![first@, second@]);
    r
}

/// The entries of `items` at the positions `picks`, in the order of `picks`.
pub fn pick(items: &Vec<String>, picks: &Vec<usize>) -> (r: Vec<String>)
    requires
        forall|k: int| 0 <= k < picks.len() ==> picks[k] < items.len(),
    ensures
        r.deep_view() == picked(items.deep_view(), picks@),
{
    let mut r: Vec<String> = Vec::new();
    let mut k: usize = 0;
    while k < picks.len()
        invariant
            k <= picks.len(),
            forall|j: int| 0 <= j < picks.len() ==> picks[j] < items.len(),
            r.deep_view() == picked(items.deep_view(), picks@.take(k as int)),
        decreases picks.len() - k,
    {
        let ghost before = r.deep_view();
        r.push(items[picks[k]].clone());
        proof {
            assert(picks@.take(k + 1) =~= picks@.take(k as int).push(picks[k as int]));
            assert(r.deep_view() =~= before.push(items[picks[k as int] as int]@));
            assert(picked(items.deep_view(), picks@.take(k + 1)) =~= before.push(
                items.deep_view()[picks[k as int] as int],
            ));
        }
        k += 1;
    }
    assert(picks@.take(picks.len() as int) =~= picks@);
    r
}

/// A copy of `items`.
pub fn copy_all(items: &Vec<String>) -> (r: Vec<String>)
    ensures
        r.deep_view() == items.deep_view(),
{
    let mut r: Vec<String> = Vec::new();
    let mut k: usize = 0;
    while k < items.len()
        invariant
            k <= items.len(),
            r.deep_view() == items.deep_view().take(k as int),
        decreases items.len() - k,
    {
        let ghost before = r.deep_view();
        r.push(items[k].clone());
        proof {
            assert(r.deep_view() =~= before.push(items[k as int]@));
            assert(items.deep_view().take(k + 1) =~= before.push(items[k as int]@));
        }
        k += 1;
    }
    assert(items.deep_view().take(items.len() as int) =~= items.deep_view());
    r
}

/// Joins `ws` with commas between the entries.
pub fn join_commas(ws: &Vec<String>) -> (r: String)
    ensures
        r@ == comma_join(ws.deep_view()),
{
    let mut r = String::new();
    let mut k: usize = 0;
    while k < ws.len()
        invariant
            k <= ws.len(),
            r@ == comma_join(ws.deep_view().take(k as int)),
        decreases ws.len() - k,
    {
        proof {
            assert(ws.deep_view().take(k + 1).drop_last() =~= ws.deep_view().take(k as int));
            assert(ws.deep_view().take(k + 1).last() == ws[k as int]@);
        }
        if k > 0 {
            r.append(",");
            proof {
                assert(","@ =~= seq![',']) by {
                    reveal_strlit(",");
                }
            }
        } else {
            assert(ws.deep_view().take(1) =~= seq![ws[0]@]);
        }
        r.append(ws[k].as_str());
        k += 1;
    }
    assert(ws.deep_view().take(ws.len() as int) =~= ws.deep_view());
    r
}

/// The feature list that a selection from `options` gives: `None` for an
/// empty selection, else the picked options joined with commas.
pub fn feature_choice(options: &Vec<String>, picks: &Vec<usize>) -> (r: Option<String>)
    requires
        forall|k: int| 0 <= k < picks.len() ==> picks[k] < options.len(),
    ensures
        r.deep_view() == chosen_features(options.deep_view(), picks@),
{
    if picks.len() == 0 {
        None
    } else {
        let chosen = pick(options, picks);
        Some(join_commas(&chosen))
    }
}

} // verus!
