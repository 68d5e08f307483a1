use vstd::prelude::*;

verus! {

/// The curated feature list offered for a well-known dependency, if any.
pub open spec fn catalog(name: Seq<char>) -> Option<Seq<Seq<char>>> {
    if name == "tokio"@ {
        Some(seq!["full"@, "rt"@, "rt-multi-thread"@, "macros"@, "io-util"@, "time"@])
    } else if name == "serde"@ {
        Some(seq!["derive"@])
    } else if name == "reqwest"@ {
        Some(seq!["json"@, "blocking"@, "rustls-tls"@, "cookies"@, "gzip"@])
    } else if name == "axum"@ {
        Some(seq!["headers"@, "http2"@, "macros"@, "multipart"@, "ws"@])
    } else if name == "diesel"@ {
        Some(seq!["postgres"@, "mysql"@, "sqlite"@, "r2d2"@, "chrono"@])
    } else if name == "sqlx"@ {
        Some(seq!["runtime-tokio-rustls"@, "postgres"@, "mysql"@, "sqlite"@, "macros"@])
    } else if name == "clap"@ {
        Some(seq!["derive"@, "cargo"@, "env"@, "wrap_help"@])
    } else {
        None
    }
}

fn owned(words: &[&str]) -> (r: Vec<String>)
    ensures
        r.len() == words.len(),
        forall|i: int| 0 <= i < words.len() ==> #[trigger] r[i]@ == words[i]@,
{
    let mut r: Vec<String> = Vec::new();
    let mut i: usize = 0;
    while i < words.len()
        invariant
            i <= words.len(),
            r.len() == i,
            forall|j: int| 0 <= j < i ==> #[trigger] r[j]@ == words[j]@,
        decreases words.len() - i,
    {
        r.push(words[i].to_owned());
        i += 1;
    }
    r
}

/// Looks `name` up in the feature catalog; the match is exact.
pub fn suggested_features(name: &String) -> (r: Option<Vec<String>>)
    ensures
        r.deep_view() == catalog(name@),
{
    let list: &[&str] = if *name == "tokio".to_owned() {
        &["full", "rt", "rt-multi-thread", "macros", "io-util", "time"]
    } else if *name == "serde".to_owned() {
        &["derive"]
    } else if *name == "reqwest".to_owned() {
        &["json", "blocking", "rustls-tls", "cookies", "gzip"]
    } else if *name == "axum".to_owned() {
        &["headers", "http2", "macros", "multipart", "ws"]
    } else if *name == "diesel".to_owned() {
        &["postgres", "mysql", "sqlite", "r2d2", "chrono"]
    } else if *name == "sqlx".to_owned() {
        &["runtime-tokio-rustls", "postgres", "mysql", "sqlite", "macros"]
    } else if *name == "clap".to_owned() {
        &["derive", "cargo", "env", "wrap_help"]
    } else {
        return None;
    };
    let r = owned(list);
    proof {
        assert(r.deep_view() =~= catalog(name@)->Some_0);
    }
    Some(r)
}

} // verus!
