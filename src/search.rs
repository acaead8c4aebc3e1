use vstd::prelude::*;

verus! {

/// `s` with every newline replaced by a space.
pub open spec fn collapse_newlines_spec(s: Seq<char>) -> Seq<char> {
    s.map_values(|c: char| if c == '\n' { ' ' } else { c })
}

/// `s` cut to its first `max` characters followed by an ellipsis when it is
/// longer than `max`; `s` itself otherwise.
pub open spec fn truncate_spec(s: Seq<char>, max: nat) -> Seq<char> {
    if s.len() <= max {
        s
    } else {
        s.subrange(0, max as int).push('…')
    }
}

/// The description shown for a search result.
pub open spec fn description_spec(d: Seq<char>) -> Seq<char> {
    truncate_spec(collapse_newlines_spec(d), 128)
}

/// The label of a search result: `name (max_version)`.
pub open spec fn label_spec(row: SearchRow) -> Seq<char> {
    row.name@ + " ("@ + row.max_version@ + ")"@
}

pub open spec fn spaces(n: nat) -> Seq<char> {
    Seq::new(n, |i: int| ' ')
}

/// The longest label among `rows`.
pub open spec fn max_label_len(rows: Seq<SearchRow>) -> nat
    decreases rows.len(),
{
    if rows.len() == 0 {
        0
    } else {
        let m = max_label_len(rows.drop_last());
        let l = label_spec(rows.last()).len();
        if l > m {
            l
        } else {
            m
        }
    }
}

/// The line printed for `row` when descriptions start at column `margin`.
pub open spec fn line_spec(row: SearchRow, margin: nat) -> Seq<char> {
    match row.description {
        Some(d) => label_spec(row) + spaces((margin - label_spec(row).len()) as nat) + description_spec(d@),
        None => label_spec(row),
    }
}

/// Decimal digits of `n`.
pub open spec fn decimal_spec(n: nat) -> Seq<char>
    decreases n,
{
    if n < 10 {
        seq!["0123456789"@[n as int]]
    } else {
        decimal_spec(n / 10).push("0123456789"@[(n % 10) as int])
    }
}

/// The closing hint of a search: how many results were left out and where to
/// see them; none when nothing was left out.
pub open spec fn search_hint_spec(total: nat, limit: nat, encoded_query: Seq<char>) -> Option<Seq<char>> {
    if total <= limit {
        None
    } else if limit < 100 {
        Some("... and "@ + decimal_spec((total - limit) as nat) + " crates more (use --limit N to see more)"@)
    } else {
        Some(
            "... and "@ + decimal_spec((total - limit) as nat)
                + " crates more (go to http://crates.io/search?q="@ + encoded_query
                + " to see more)"@,
        )
    }
}

/// One search result as the registry returns it.
#[derive(Debug)]
pub struct SearchRow {
    pub name: String,
    pub max_version: String,
    pub description: Option<String>,
}

/// Replaces each newline in `s` by a space.
pub fn collapse_newlines(s: &str) -> (r: String)
    ensures
        r@ == collapse_newlines_spec(s@),
{
    let n = s.unicode_len();
    let mut r = String::new();
    let mut i: usize = 0;
    while i < n
        invariant
            n == s@.len(),
            i <= n,
            r@ == collapse_newlines_spec(s@.subrange(0, i as int)),
        decreases n - i,
    {
        let c = s.get_char(i);
        if c == '\n' {
            r.append(" ");
        } else {
            r.append(s.substring_char(i, i + 1));
        }
        proof {
            reveal_strlit(" ");
        }
        assert(collapse_newlines_spec(s@.subrange(0, i + 1)) =~= collapse_newlines_spec(
            s@.subrange(0, i as int),
        ).push(if c == '\n' { ' ' } else { c }));
        assert(r@ =~= collapse_newlines_spec(s@.subrange(0, i + 1)));
        i = i + 1;
    }
    assert(s@.subrange(0, n as int) =~= s@);
    r
}

/// Cuts `s` to `max_length` characters and an ellipsis when it is longer.
pub fn truncate_with_ellipsis(s: &str, max_length: usize) -> (r: String)
    ensures
        r@ == truncate_spec(s@, max_length as nat),
{
    let n = s.unicode_len();
    if n <= max_length {
        String::from_str(s)
    } else {
        let r = String::from_str(s.substring_char(0, max_length));
        proof {
            reveal_strlit("…");
        }
        let r = r.concat("…");
        assert(r@ =~= s@.subrange(0, max_length as int).push('…'));
        r
    }
}

/// The label of a search result: `name (max_version)`.
pub fn search_label(row: &SearchRow) -> (r: String)
    ensures
        r@ == label_spec(*row),
{
    let s = row.name.clone();
    let s = s.concat(" (");
    let s = s.concat(row.max_version.as_str());
    s.concat(")")
}

fn spaces_string(n: usize) -> (r: String)
    ensures
        r@ == spaces(n as nat),
{
    let mut r = String::new();
    let mut i: usize = 0;
    while i < n
        invariant
            i <= n,
            r@ == spaces(i as nat),
        decreases n - i,
    {
        proof {
            reveal_strlit(" ");
        }
        r.append(" ");
        i = i + 1;
        assert(r@ =~= spaces(i as nat));
    }
    r
}

pub open spec fn row_fits(row: SearchRow) -> bool {
    row.name@.len() + row.max_version@.len() + 8 <= usize::MAX
}

/// The lines printed for the results of a search: each label, and its
/// description starting four columns after the longest label.
pub fn search_lines(rows: &Vec<SearchRow>) -> (r: Vec<String>)
    requires
        forall|i: int| 0 <= i < rows@.len() ==> row_fits(#[trigger] rows@[i]),
    ensures
        r@.len() == rows@.len(),
        forall|i: int|
            0 <= i < rows@.len() ==> (#[trigger] r@[i])@ == line_spec(
                rows@[i],
                max_label_len(rows@) + 4,
            ),
{
    let mut labels: Vec<String> = Vec::new();
    let mut widest: usize = 0;
    let mut i: usize = 0;
    while i < rows.len()
        invariant
            i <= rows@.len(),
            forall|k: int| 0 <= k < rows@.len() ==> row_fits(#[trigger] rows@[k]),
            labels@.len() == i,
            forall|k: int| 0 <= k < i ==> (#[trigger] labels@[k])@ == label_spec(rows@[k]),
            widest == max_label_len(rows@.subrange(0, i as int)),
            widest + 5 <= usize::MAX,
        decreases rows@.len() - i,
    {
        let label = search_label(&rows[i]);
        let len = label.as_str().unicode_len();
        assert(rows@.subrange(0, i + 1).drop_last() =~= rows@.subrange(0, i as int));
        assert(row_fits(rows@[i as int]));
        proof {
            reveal_strlit(" (");
            reveal_strlit(")");
        }
        assert(len == rows@[i as int].name@.len() + rows@[i as int].max_version@.len() + 3);
        if len > widest {
            widest = len;
        }
        labels.push(label);
        i = i + 1;
    }
    assert(rows@.subrange(0, rows@.len() as int) =~= rows@);
    proof {
        lemma_max_label_len(rows@);
    }
    let mut lines: Vec<String> = Vec::new();
    let mut j: usize = 0;
    while j < rows.len()
        invariant
            j <= rows@.len(),
            labels@.len() == rows@.len(),
            forall|k: int| 0 <= k < rows@.len() ==> (#[trigger] labels@[k])@ == label_spec(rows@[k]),
            forall|k: int| 0 <= k < rows@.len() ==> label_spec(#[trigger] rows@[k]).len() <= widest,
            widest == max_label_len(rows@),
            widest + 5 <= usize::MAX,
            lines@.len() == j,
            forall|k: int| 0 <= k < j ==> (#[trigger] lines@[k])@ == line_spec(rows@[k], (widest + 4) as nat),
        decreases rows@.len() - j,
    {
        let label = &labels[j];
        assert(label@ == label_spec(rows@[j as int]));
        let line = match &rows[j].description {
            Some(d) => {
                let len = label.as_str().unicode_len();
                let pad = spaces_string(widest + 4 - len);
                let text = truncate_with_ellipsis(collapse_newlines(d.as_str()).as_str(), 128);
                let s = label.clone();
                let s = s.concat(pad.as_str());
                s.concat(text.as_str())
            },
            None => label.clone(),
        };
        lines.push(line);
        j = j + 1;
    }
    lines
}

proof fn lemma_max_label_len(rows: Seq<SearchRow>)
    ensures
        forall|k: int| 0 <= k < rows.len() ==> label_spec(#[trigger] rows[k]).len() <= max_label_len(rows),
    decreases rows.len(),
{
    if rows.len() > 0 {
        let pre = rows.drop_last();
        lemma_max_label_len(pre);
        assert(forall|k: int| 0 <= k < pre.len() ==> pre[k] == rows[k]);
    }
}

/// Decimal digits of `n`.
pub fn decimal(n: u32) -> (r: String)
    ensures
        r@ == decimal_spec(n as nat),
    decreases n,
{
    let digits = "0123456789";
    proof {
        reveal_strlit("0123456789");
    }
    if n < 10 {
        let d = n as usize;
        String::from_str(digits.substring_char(d, d + 1))
    } else {
        let d = (n % 10) as usize;
        let r = decimal(n / 10).concat(digits.substring_char(d, d + 1));
        assert(r@ =~= decimal_spec(n as nat));
        r
    }
}

/// The closing hint of a search that asked for `limit` results of `total`,
/// given the query as percent-encoded for a URL.
pub fn search_hint(total: u32, limit: u8, encoded_query: &str) -> (r: Option<String>)
    ensures
        r is None <==> search_hint_spec(total as nat, limit as nat, encoded_query@) is None,
        r is Some ==> r->0@ == search_hint_spec(total as nat, limit as nat, encoded_query@)->0,
{
    let search_max_limit: u8 = 100;
    if total <= limit as u32 {
        return None;
    }
    let s = String::from_str("... and ");
    let s = s.concat(decimal(total - limit as u32).as_str());
    if limit < search_max_limit {
        Some(s.concat(" crates more (use --limit N to see more)"))
    } else {
        let s = s.concat(" crates more (go to http://crates.io/search?q=");
        let s = s.concat(encoded_query);
        Some(s.concat(" to see more)"))
    }
}

/// What url's query percent-encoding makes of `s`.
pub uninterp spec fn query_encoded(s: Seq<char>) -> Seq<char>;

/// Relies on url::percent_encoding::percent_encode with QUERY_ENCODE_SET: the
/// encoded text depends on the query alone.
#[verifier::external_body]
fn percent_encode_query(q: &str) -> (r: String)
    ensures
        r@ == query_encoded(q@),
{
    url::percent_encoding::percent_encode(q.as_bytes(), url::percent_encoding::QUERY_ENCODE_SET).to_string()
}

/// The closing hint of a search for `query`.
pub fn search_hint_for(query: &str, total: u32, limit: u8) -> (r: Option<String>)
    ensures
        r is None <==> search_hint_spec(total as nat, limit as nat, query_encoded(query@)) is None,
        r is Some ==> r->0@ == search_hint_spec(total as nat, limit as nat, query_encoded(query@))->0,
{
    let encoded = percent_encode_query(query);
    search_hint(total, limit, encoded.as_str())
}

} // verus!
