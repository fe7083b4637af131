//! The search for properties: the statement that is sent to the database.

use vstd::prelude::*;
use vstd::string::*;
use crate::db::clamp;
use crate::text::{decimal_of_nat, decimal_text_of};

verus! {

/// What to search properties by. Each text is looked for anywhere in
/// its field, whatever the case.
#[derive(Debug, Clone, PartialEq, Eq)]
pub struct PropertySearch {
    pub city: Option<String>,
    pub state: Option<String>,
    pub postal_code: Option<String>,
    /// The page to show, from 1; 1 where none is given.
    pub page: Option<i32>,
    /// The number of properties on a page; 20 where none is given.
    pub limit: Option<i32>,
}

/// A statement with the values for its placeholders `$1`, `$2`, ..: the
/// patterns first, then the limit, then the offset.
#[derive(Debug, Clone, PartialEq, Eq)]
pub struct PropertyStatement {
    pub sql: String,
    pub patterns: Vec<String>,
    pub limit: i32,
    pub offset: i64,
}

/// The fields that can be searched by, in the order of their
/// placeholders.
pub open spec fn filters(search: PropertySearch) -> Seq<(Seq<char>, Seq<char>)> {
    let city = match search.city {
        Some(text) => seq![("city"@, text@)],
        None => Seq::<(Seq<char>, Seq<char>)>::empty(),
    };
    let state = match search.state {
        Some(text) => seq![("state"@, text@)],
        None => Seq::<(Seq<char>, Seq<char>)>::empty(),
    };
    let postal_code = match search.postal_code {
        Some(text) => seq![("postal_code"@, text@)],
        None => Seq::<(Seq<char>, Seq<char>)>::empty(),
    };
    city + state + postal_code
}

/// The conditions for the first `n` filters, each joined on with ` AND `.
pub open spec fn conditions(filters: Seq<(Seq<char>, Seq<char>)>, n: nat) -> Seq<char>
    decreases n,
{
    if n == 0 {
        Seq::<char>::empty()
    } else {
        conditions(filters, (n - 1) as nat) + " AND address->>'"@ + filters[n - 1].0
            + "' ILIKE $"@ + decimal_of_nat(n)
    }
}

/// The text of the statement for these filters.
pub open spec fn statement_text(filters: Seq<(Seq<char>, Seq<char>)>) -> Seq<char> {
    "SELECT * FROM properties WHERE 1=1"@ + conditions(filters, filters.len()) + " LIMIT $"@
        + decimal_of_nat(filters.len() + 1) + " OFFSET $"@ + decimal_of_nat(filters.len() + 2)
}

/// The page that a search asks for.
pub open spec fn page_of(search: PropertySearch) -> int {
    match search.page {
        Some(page) => clamp(page as int, 1, i32::MAX as int),
        None => 1,
    }
}

/// The number of properties on a page that a search asks for.
pub open spec fn limit_of(search: PropertySearch) -> int {
    match search.limit {
        Some(limit) => clamp(limit as int, 1, 100),
        None => 20,
    }
}

impl PropertyStatement {
    /// The patterns as texts.
    pub open spec fn pattern_texts(&self) -> Seq<Seq<char>> {
        self.patterns.deep_view()
    }

    /// Whether this is the statement for `search`.
    pub open spec fn searches(&self, search: PropertySearch) -> bool {
        let wanted = filters(search);
        &&& self.sql@ == statement_text(wanted)
        &&& self.pattern_texts().len() == wanted.len()
        &&& forall|i: int|
            0 <= i < wanted.len() ==> #[trigger] self.pattern_texts()[i] == "%"@ + wanted[i].1
                + "%"@
        &&& self.limit == limit_of(search)
        &&& self.offset == (page_of(search) - 1) * limit_of(search)
    }
}

/// Adds a filter to a statement under way.
fn add_filter(
    sql: &mut String,
    patterns: &mut Vec<String>,
    field: &str,
    text: &str,
    Ghost(done): Ghost<Seq<(Seq<char>, Seq<char>)>>,
)
    requires
        old(patterns)@.len() == done.len(),
        done.len() < 3,
        old(sql)@ == "SELECT * FROM properties WHERE 1=1"@ + conditions(done, done.len()),
        forall|i: int|
            0 <= i < done.len() ==> #[trigger] old(patterns).deep_view()[i] == "%"@ + done[i].1
                + "%"@,
    ensures
        final(patterns)@.len() == done.len() + 1,
        final(sql)@ == "SELECT * FROM properties WHERE 1=1"@ + conditions(
            done.push((field@, text@)),
            done.len() + 1,
        ),
        forall|i: int|
            0 <= i < done.len() + 1 ==> #[trigger] final(patterns).deep_view()[i] == "%"@
                + done.push((field@, text@))[i].1 + "%"@,
{
    let ghost all = done.push((field@, text@));
    let ghost before = patterns.deep_view();
    let mut pattern = String::from_str("%");
    pattern.append(text);
    pattern.append("%");
    patterns.push(pattern);
    sql.append(" AND address->>'");
    sql.append(field);
    sql.append("' ILIKE $");
    sql.append(decimal_text_of(patterns.len() as u64).as_str());
    proof {
        lemma_conditions_extend(done, all, done.len());
        assert(patterns.deep_view() =~= before.push("%"@ + text@ + "%"@));
        assert forall|i: int| 0 <= i < done.len() + 1 implies #[trigger] patterns.deep_view()[i]
            == "%"@ + all[i].1 + "%"@ by {
            if i < done.len() {
                assert(patterns.deep_view()[i] == before[i]);
            }
        }
        assert(sql@ =~= "SELECT * FROM properties WHERE 1=1"@ + conditions(all, all.len()));
    }
}

/// The conditions for the first `n` filters do not depend on the
/// filters that follow.
proof fn lemma_conditions_extend(
    done: Seq<(Seq<char>, Seq<char>)>,
    all: Seq<(Seq<char>, Seq<char>)>,
    n: nat,
)
    requires
        n <= done.len() <= all.len(),
        forall|i: int| 0 <= i < done.len() ==> done[i] == all[i],
    ensures
        conditions(done, n) == conditions(all, n),
    decreases n,
{
    if n > 0 {
        lemma_conditions_extend(done, all, (n - 1) as nat);
    }
}

/// Find properties based on search criteria: the statement to send.
pub fn find_properties(search: &PropertySearch) -> (statement: PropertyStatement)
    ensures
        statement.searches(*search),
{
    let mut sql = String::from_str("SELECT * FROM properties WHERE 1=1");
    let mut patterns: Vec<String> = Vec::new();
    let ghost mut done = Seq::<(Seq<char>, Seq<char>)>::empty();
    assert(sql@ =~= "SELECT * FROM properties WHERE 1=1"@ + conditions(done, 0));
    if let Some(city) = &search.city {
        add_filter(&mut sql, &mut patterns, "city", city.as_str(), Ghost(done));
        proof {
            done = done.push(("city"@, city@));
        }
    }
    if let Some(state) = &search.state {
        add_filter(&mut sql, &mut patterns, "state", state.as_str(), Ghost(done));
        proof {
            done = done.push(("state"@, state@));
        }
    }
    if let Some(postal_code) = &search.postal_code {
        add_filter(&mut sql, &mut patterns, "postal_code", postal_code.as_str(), Ghost(done));
        proof {
            done = done.push(("postal_code"@, postal_code@));
        }
    }
    assert(done =~= filters(*search));
    let page: i32 = match search.page {
        Some(page) => if page < 1 {
            1
        } else {
            page
        },
        None => 1,
    };
    let limit: i32 = match search.limit {
        Some(limit) => if limit < 1 {
            1
        } else if limit > 100 {
            100
        } else {
            limit
        },
        None => 20,
    };
    assert(0 <= (page - 1) * limit <= 0x7fff_ffff * 100) by (nonlinear_arith)
        requires
            1 <= page <= 0x7fff_ffff,
            1 <= limit <= 100,
    ;
    let offset: i64 = (page as i64 - 1) * (limit as i64);
    sql.append(" LIMIT $");
    sql.append(decimal_text_of(patterns.len() as u64 + 1).as_str());
    sql.append(" OFFSET $");
    sql.append(decimal_text_of(patterns.len() as u64 + 2).as_str());
    PropertyStatement { sql, patterns, limit, offset }
}

} // verus!
