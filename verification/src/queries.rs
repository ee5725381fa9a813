//! Listing and reporting queries: paging, the parameterised filters of the project list, the
//! dashboard and the donation export, and the export's CSV text.
use vstd::prelude::*;
use crate::types::ProjectFilter;
use crate::codec::{decimal, u64_to_decimal, signed_decimal, i64_to_decimal};
use crate::text::{chars_of, string_of, extend_chars, join_with, join_strings};
use crate::auth::opt_chars;

verus! {

// ── Request parameters ──

/// Filters of a dashboard or export request.
#[derive(Clone, Debug)]
pub struct StatsQuery {
    pub from: Option<String>,
    pub to: Option<String>,
    pub cause: Option<String>,
    pub status: Option<String>,
}

/// Paging of an operations-log request.
#[derive(Clone, Copy, Debug)]
pub struct PaginationQuery {
    pub page: Option<i64>,
    pub per_page: Option<i64>,
}

/// Parameters of a project list request: filters and paging.
#[derive(Clone, Debug)]
pub struct ListParams {
    pub cause: Option<String>,
    pub status: Option<String>,
    pub zip_code: Option<String>,
    pub search: Option<String>,
    pub page: Option<i64>,
    pub per_page: Option<i64>,
}

impl ListParams {
    /// The filter part of the parameters.
    pub fn filter(self) -> (r: ProjectFilter)
        ensures
            r.cause == self.cause,
            r.status == self.status,
            r.zip_code == self.zip_code,
            r.search == self.search,
    {
        ProjectFilter { cause: self.cause, status: self.status, zip_code: self.zip_code, search: self.search }
    }
}

// ── Paging ──

/// The page shown by the project list: page `max(page, 1)` (1 when absent), at most 100
/// items per page (20 when absent), starting after `(page - 1) * per_page` items.
pub open spec fn project_page(page: Option<i64>, per_page: Option<i64>) -> (int, int, int) {
    let p = match page { Some(x) => if x < 1 { 1int } else { x as int }, None => 1int };
    let n = match per_page { Some(x) => if x > 100 { 100int } else { x as int }, None => 20int };
    (p, n, (p - 1) * n)
}

/// Whether a value fits in an `i64`.
pub open spec fn fits_i64(x: int) -> bool {
    i64::MIN <= x <= i64::MAX
}

/// Page number, page size and offset of a project list request; `None` where the offset
/// does not fit in an `i64`, where `(page - 1) * per_page` would overflow.
pub fn project_page_window(page: Option<i64>, per_page: Option<i64>) -> (r: Option<(i64, i64, i64)>)
    ensures
        fits_i64(project_page(page, per_page).2) <==> r is Some,
        r matches Some(w) ==> (w.0 as int, w.1 as int, w.2 as int) == project_page(page, per_page),
{
    let p: i64 = match page {
        Some(x) => if x < 1 { 1 } else { x },
        None => 1,
    };
    let n: i64 = match per_page {
        Some(x) => if x > 100 { 100 } else { x },
        None => 20,
    };
    let a: i128 = (p as i128) - 1;
    let b: i128 = n as i128;
    proof {
        let ai: int = a as int;
        let bi: int = b as int;
        assert(-0x4000_0000_0000_0000_8000_0000_0000_0000int <= ai * bi
            <= 0x4000_0000_0000_0000_8000_0000_0000_0000int) by (nonlinear_arith)
            requires
                -0x8000_0000_0000_0001int <= ai <= 0x8000_0000_0000_0001int,
                -0x8000_0000_0000_0000int <= bi <= 0x8000_0000_0000_0000int;
    }
    let wide: i128 = a * b;
    if wide < -9223372036854775808i128 || wide > 9223372036854775807i128 {
        return None;
    }
    Some((p, n, wide as i64))
}

/// The slice of the operations log a request asks for: `per_page` entries (50 when absent)
/// after `(page - 1) * per_page` of them (page 1 when absent).
pub open spec fn log_page(page: Option<i64>, per_page: Option<i64>) -> (int, int) {
    let limit = match per_page { Some(x) => x as int, None => 50int };
    let p = match page { Some(x) => x as int, None => 1int };
    (limit, (p - 1) * limit)
}

/// Limit and offset of an operations-log request; `None` where `page - 1` or the offset does
/// not fit in an `i64`, where that arithmetic would overflow.
pub fn log_page_window(page: Option<i64>, per_page: Option<i64>) -> (r: Option<(i64, i64)>)
    ensures
        (fits_i64(log_page(page, per_page).1) && !(page == Some(i64::MIN))) <==> r is Some,
        r matches Some(w) ==> (w.0 as int, w.1 as int) == log_page(page, per_page),
{
    let limit: i64 = match per_page {
        Some(x) => x,
        None => 50,
    };
    let p: i64 = match page {
        Some(x) => x,
        None => 1,
    };
    if p == i64::MIN {
        return None;
    }
    let a: i128 = (p as i128) - 1;
    let b: i128 = limit as i128;
    proof {
        let ai: int = a as int;
        let bi: int = b as int;
        assert(-0x4000_0000_0000_0000_8000_0000_0000_0000int <= ai * bi
            <= 0x4000_0000_0000_0000_8000_0000_0000_0000int) by (nonlinear_arith)
            requires
                -0x8000_0000_0000_0001int <= ai <= 0x8000_0000_0000_0001int,
                -0x8000_0000_0000_0000int <= bi <= 0x8000_0000_0000_0000int;
    }
    let wide: i128 = a * b;
    if wide < -9223372036854775808i128 || wide > 9223372036854775807i128 {
        return None;
    }
    Some((limit, wide as i64))
}

// ── Filters ──

/// A SQL parameter placeholder, `?n`.
pub open spec fn placeholder(n: nat) -> Seq<char> {
    seq!['?'] + decimal(n)
}

/// WHERE clauses and their parameters, in order.
pub type ClausesAndParams = (Seq<Seq<char>>, Seq<Seq<char>>);

/// Adds a clause `prefix ?n` for a new parameter `value` (the `n`-th parameter).
pub open spec fn add_param(acc: (Seq<Seq<char>>, Seq<Seq<char>>), prefix: Seq<char>, value: Seq<char>) -> (Seq<Seq<char>>, Seq<Seq<char>>) {
    let params = acc.1.push(value);
    (acc.0.push(prefix + placeholder(params.len())), params)
}

/// Adds a clause for an optional filter value; nothing when it is absent.
pub open spec fn add_opt(acc: (Seq<Seq<char>>, Seq<Seq<char>>), prefix: Seq<char>, value: Option<Seq<char>>) -> (Seq<Seq<char>>, Seq<Seq<char>>) {
    match value {
        Some(v) => add_param(acc, prefix, v),
        None => acc,
    }
}

/// A search term made safe for `LIKE ... ESCAPE '\'`: `\`, `%` and `_` each get a `\` before them.
pub open spec fn escape_like_spec(s: Seq<char>) -> Seq<char>
    decreases s.len(),
{
    if s.len() == 0 {
        Seq::empty()
    } else {
        let c = s.last();
        escape_like_spec(s.drop_last()) + if c == '\\' || c == '%' || c == '_' {
            seq!['\\', c]
        } else {
            seq![c]
        }
    }
}

/// Escapes the `LIKE` metacharacters of a search term.
pub fn escape_like(s: &str) -> (r: String)
    ensures
        r@ == escape_like_spec(s@),
{
    let v = chars_of(s);
    let mut out: Vec<char> = Vec::new();
    let mut i: usize = 0;
    while i < v.len()
        invariant
            i <= v@.len(),
            out@ == escape_like_spec(v@.take(i as int)),
        decreases v@.len() - i,
    {
        let c = v[i];
        assert(v@.take(i + 1).drop_last() =~= v@.take(i as int));
        if c == '\\' || c == '%' || c == '_' {
            out.push('\\');
        }
        out.push(c);
        assert(out@ =~= escape_like_spec(v@.take(i + 1)));
        i += 1;
    }
    assert(v@.take(v@.len() as int) =~= v@);
    string_of(out.as_slice())
}

/// How `LIKE ... ESCAPE '\'` reads a pattern when it holds no wildcard: the one text it
/// matches. `None` when the pattern holds an unescaped `%` or `_`, or ends in a lone `\`.
pub open spec fn like_literal(p: Seq<char>) -> Option<Seq<char>>
    decreases p.len(),
{
    if p.len() == 0 {
        Some(Seq::empty())
    } else if p[0] == '\\' {
        if p.len() < 2 {
            None
        } else {
            match like_literal(p.subrange(2, p.len() as int)) {
                Some(r) => Some(seq![p[1]] + r),
                None => None,
            }
        }
    } else if p[0] == '%' || p[0] == '_' {
        None
    } else {
        match like_literal(p.drop_first()) {
            Some(r) => Some(seq![p[0]] + r),
            None => None,
        }
    }
}

proof fn lemma_like_literal_concat(a: Seq<char>, b: Seq<char>)
    requires
        like_literal(a) is Some,
        like_literal(b) is Some,
    ensures
        like_literal(a + b) == Some(like_literal(a)->0 + like_literal(b)->0),
    decreases a.len(),
{
    if a.len() == 0 {
        assert(a + b =~= b);
        assert(like_literal(a)->0 + like_literal(b)->0 =~= like_literal(b)->0);
    } else if a[0] == '\\' {
        let rest = a.subrange(2, a.len() as int);
        lemma_like_literal_concat(rest, b);
        assert((a + b).subrange(2, (a + b).len() as int) =~= rest + b);
        assert(seq![a[1]] + (like_literal(rest)->0 + like_literal(b)->0)
            =~= (seq![a[1]] + like_literal(rest)->0) + like_literal(b)->0);
    } else {
        let rest = a.drop_first();
        lemma_like_literal_concat(rest, b);
        assert((a + b).drop_first() =~= rest + b);
        assert(seq![a[0]] + (like_literal(rest)->0 + like_literal(b)->0)
            =~= (seq![a[0]] + like_literal(rest)->0) + like_literal(b)->0);
    }
}

/// An escaped search term is matched literally: read as a `LIKE` pattern with escape `\`,
/// it holds no wildcard and stands for exactly the term itself.
pub proof fn lemma_search_term_is_literal(s: Seq<char>)
    ensures
        like_literal(escape_like_spec(s)) == Some(s),
    decreases s.len(),
{
    if s.len() > 0 {
        let c = s.last();
        lemma_search_term_is_literal(s.drop_last());
        let piece = if c == '\\' || c == '%' || c == '_' { seq!['\\', c] } else { seq![c] };
        if c == '\\' || c == '%' || c == '_' {
            assert(piece.subrange(2, 2) =~= Seq::<char>::empty());
            assert(like_literal(Seq::<char>::empty()) == Some(Seq::<char>::empty()));
            assert(seq![c] + Seq::<char>::empty() =~= seq![c]);
            assert(like_literal(piece) == Some(seq![c]));
        } else {
            assert(piece.drop_first() =~= Seq::<char>::empty());
            assert(like_literal(Seq::<char>::empty()) == Some(Seq::<char>::empty()));
            assert(seq![c] + Seq::<char>::empty() =~= seq![c]);
            assert(like_literal(piece) == Some(seq![c]));
        }
        lemma_like_literal_concat(escape_like_spec(s.drop_last()), piece);
        assert(s.drop_last() + seq![c] =~= s);
    }
}

/// Adds the text-search clause: the title or the description contains the escaped term.
pub open spec fn add_search(acc: (Seq<Seq<char>>, Seq<Seq<char>>), search: Option<Seq<char>>) -> (Seq<Seq<char>>, Seq<Seq<char>>) {
    match search {
        Some(s) => {
            let params = acc.1.push(seq!['%'] + escape_like_spec(s) + seq!['%']);
            let ph = placeholder(params.len());
            (acc.0.push("(p.title LIKE "@ + ph + " ESCAPE '\\' OR p.description LIKE "@ + ph + " ESCAPE '\\')"@), params)
        },
        None => acc,
    }
}

/// The clauses and parameters of the project list filter, in the order cause, status,
/// ZIP code, search; the first clause is always `1=1`.
pub open spec fn project_filter_spec(cause: Option<Seq<char>>, status: Option<Seq<char>>, zip: Option<Seq<char>>, search: Option<Seq<char>>) -> (Seq<Seq<char>>, Seq<Seq<char>>) {
    let acc0 = (seq!["1=1"@], Seq::<Seq<char>>::empty());
    add_search(add_opt(add_opt(add_opt(acc0, "p.cause = "@, cause), "p.status = "@, status), "p.zip_code = "@, zip), search)
}

/// Clauses and parameters being gathered for a WHERE condition.
pub struct SqlConditions {
    pub clauses: Vec<String>,
    pub params: Vec<String>,
}

impl SqlConditions {
    /// The gathered clauses and parameters as sequences.
    pub open spec fn spec_pair(&self) -> (Seq<Seq<char>>, Seq<Seq<char>>) {
        (self.clauses@.map_values(|s: String| s@), self.params@.map_values(|s: String| s@))
    }

    /// Starts with a single fixed clause.
    pub fn starting_with(first: &str) -> (r: Self)
        ensures
            r.spec_pair() == (seq![first@], Seq::<Seq<char>>::empty()),
    {
        let mut clauses: Vec<String> = Vec::new();
        clauses.push(String::from_str(first));
        let r = SqlConditions { clauses, params: Vec::new() };
        assert(r.spec_pair().0 =~= seq![first@]);
        assert(r.spec_pair().1 =~= Seq::<Seq<char>>::empty());
        r
    }

    /// The placeholder of the parameter added last.
    fn last_placeholder(&self) -> (r: Vec<char>)
        ensures
            r@ == placeholder(self.params@.len()),
    {
        let mut r: Vec<char> = Vec::new();
        r.push('?');
        let d = u64_to_decimal(self.params.len() as u64);
        extend_chars(&mut r, &d);
        r
    }

    /// Adds a clause `prefix ?n` for a new parameter.
    pub fn add_param(&mut self, prefix: &str, value: &str)
        ensures
            final(self).spec_pair() == add_param(old(self).spec_pair(), prefix@, value@),
    {
        self.params.push(String::from_str(value));
        let mut c = chars_of(prefix);
        let ph = self.last_placeholder();
        extend_chars(&mut c, &ph);
        self.clauses.push(string_of(c.as_slice()));
        assert(self.spec_pair().0 =~= add_param(old(self).spec_pair(), prefix@, value@).0);
        assert(self.spec_pair().1 =~= add_param(old(self).spec_pair(), prefix@, value@).1);
    }

    /// Adds a clause for an optional value.
    pub fn add_opt(&mut self, prefix: &str, value: Option<&str>)
        ensures
            final(self).spec_pair() == add_opt(old(self).spec_pair(), prefix@, match value { Some(v) => Some(v@), None => None }),
    {
        match value {
            Some(v) => self.add_param(prefix, v),
            None => {},
        }
    }

    /// Adds the text-search clause for an optional term.
    pub fn add_search(&mut self, search: Option<&str>)
        ensures
            final(self).spec_pair() == add_search(old(self).spec_pair(), match search { Some(v) => Some(v@), None => None }),
    {
        match search {
            Some(s) => {
                let mut pattern: Vec<char> = Vec::new();
                pattern.push('%');
                let e = escape_like(s);
                let ev = chars_of(e.as_str());
                extend_chars(&mut pattern, &ev);
                pattern.push('%');
                self.params.push(string_of(pattern.as_slice()));
                let ph = self.last_placeholder();
                let mut c = chars_of("(p.title LIKE ");
                extend_chars(&mut c, &ph);
                let mid = chars_of(" ESCAPE '\\' OR p.description LIKE ");
                extend_chars(&mut c, &mid);
                extend_chars(&mut c, &ph);
                let tail = chars_of(" ESCAPE '\\')");
                extend_chars(&mut c, &tail);
                self.clauses.push(string_of(c.as_slice()));
                let ghost want = add_search(old(self).spec_pair(), Some(s@));
                assert(pattern@ =~= seq!['%'] + escape_like_spec(s@) + seq!['%']);
                assert(self.spec_pair().1 =~= want.1);
                assert(c@ =~= "(p.title LIKE "@ + placeholder(want.1.len()) + " ESCAPE '\\' OR p.description LIKE "@
                    + placeholder(want.1.len()) + " ESCAPE '\\')"@);
                assert(self.spec_pair().0 =~= want.0);
            },
            None => {},
        }
    }

    /// The clauses joined with ` AND `.
    pub fn where_sql(&self) -> (r: String)
        ensures
            r@ == join_with(self.spec_pair().0, " AND "@),
    {
        join_strings(self.clauses.as_slice(), " AND ")
    }
}

/// The optional text of an optional string slice.
pub open spec fn opt_str_view(o: Option<&str>) -> Option<Seq<char>> {
    match o {
        Some(s) => Some(s@),
        None => None,
    }
}

/// The WHERE condition and parameters of a project list request.
pub fn project_filter_where(f: &ProjectFilter) -> (r: (String, Vec<String>))
    ensures
        r.0@ == join_with(project_filter_spec(opt_chars(f.cause), opt_chars(f.status), opt_chars(f.zip_code), opt_chars(f.search)).0, " AND "@),
        r.1@.map_values(|s: String| s@) == project_filter_spec(opt_chars(f.cause), opt_chars(f.status), opt_chars(f.zip_code), opt_chars(f.search)).1,
{
    let mut c = SqlConditions::starting_with("1=1");
    c.add_opt("p.cause = ", as_opt_str(&f.cause));
    c.add_opt("p.status = ", as_opt_str(&f.status));
    c.add_opt("p.zip_code = ", as_opt_str(&f.zip_code));
    c.add_search(as_opt_str(&f.search));
    let w = c.where_sql();
    (w, c.params)
}

fn as_opt_str(o: &Option<String>) -> (r: Option<&str>)
    ensures
        opt_str_view(r) == opt_chars(*o),
{
    match o {
        Some(s) => Some(s.as_str()),
        None => None,
    }
}

/// The accounting filter of the reports: original donations, and reversals once approved.
pub open spec fn accounting_clause() -> Seq<char> {
    "(d.is_reversal = 0 OR d.reversal_approved = 1)"@
}

/// The clauses and parameters of a dashboard request, starting from the given first clause:
/// date bounds on the donation, then (through a join with the project) cause and status.
pub open spec fn dashboard_filter_spec(first: Seq<char>, from: Option<Seq<char>>, to: Option<Seq<char>>, cause: Option<Seq<char>>, status: Option<Seq<char>>) -> (Seq<Seq<char>>, Seq<Seq<char>>) {
    let acc = add_opt(add_opt((seq![first], Seq::<Seq<char>>::empty()), "d.created_at >= "@, from), "d.created_at <= "@, to);
    if cause is Some || status is Some {
        add_opt(add_opt(acc, "p.cause = "@, cause), "p.status = "@, status)
    } else {
        acc
    }
}

/// The filter of a dashboard request: whether the project join is needed, the condition for
/// sums (with the accounting filter), the condition for counts (original donations only),
/// and the shared parameters.
pub struct DashboardQuery {
    pub join_projects: bool,
    pub where_sql: String,
    pub count_where_sql: String,
    pub params: Vec<String>,
}

/// The sums and the counts of a dashboard request differ only in their first clause, so they
/// take the same parameters, numbered the same way, and the same number of clauses.
pub proof fn lemma_dashboard_conditions_share_params(
    first_a: Seq<char>,
    first_b: Seq<char>,
    from: Option<Seq<char>>,
    to: Option<Seq<char>>,
    cause: Option<Seq<char>>,
    status: Option<Seq<char>>,
)
    ensures
        dashboard_filter_spec(first_a, from, to, cause, status).1 == dashboard_filter_spec(first_b, from, to, cause, status).1,
        dashboard_filter_spec(first_a, from, to, cause, status).0.len() == dashboard_filter_spec(first_b, from, to, cause, status).0.len(),
        forall|i: int| 1 <= i < dashboard_filter_spec(first_a, from, to, cause, status).0.len() ==>
            dashboard_filter_spec(first_a, from, to, cause, status).0[i] == dashboard_filter_spec(first_b, from, to, cause, status).0[i],
{
}

/// Builds the filter of a dashboard request.
pub fn dashboard_query(from: Option<&str>, to: Option<&str>, cause: Option<&str>, status: Option<&str>) -> (r: DashboardQuery)
    ensures
        r.join_projects == (cause is Some || status is Some),
        r.where_sql@ == join_with(dashboard_filter_spec(accounting_clause(), opt_str_view(from), opt_str_view(to), opt_str_view(cause), opt_str_view(status)).0, " AND "@),
        r.count_where_sql@ == join_with(dashboard_filter_spec("d.is_reversal = 0"@, opt_str_view(from), opt_str_view(to), opt_str_view(cause), opt_str_view(status)).0, " AND "@),
        r.params@.map_values(|s: String| s@) == dashboard_filter_spec(accounting_clause(), opt_str_view(from), opt_str_view(to), opt_str_view(cause), opt_str_view(status)).1,
{
    let join_projects = cause.is_some() || status.is_some();
    let mut sums = SqlConditions::starting_with("(d.is_reversal = 0 OR d.reversal_approved = 1)");
    let mut counts = SqlConditions::starting_with("d.is_reversal = 0");
    sums.add_opt("d.created_at >= ", from);
    counts.add_opt("d.created_at >= ", from);
    sums.add_opt("d.created_at <= ", to);
    counts.add_opt("d.created_at <= ", to);
    if join_projects {
        sums.add_opt("p.cause = ", cause);
        counts.add_opt("p.cause = ", cause);
        sums.add_opt("p.status = ", status);
        counts.add_opt("p.status = ", status);
    }
    let where_sql = sums.where_sql();
    let count_where_sql = counts.where_sql();
    DashboardQuery { join_projects, where_sql, count_where_sql, params: sums.params }
}

/// Average donation in cents: the total divided by the count, truncated toward zero; 0 when
/// there are no donations.
pub open spec fn average_spec(gmv: int, count: int) -> int {
    if count > 0 {
        if gmv >= 0 { gmv / count } else { -((-gmv) / count) }
    } else {
        0
    }
}

/// The average donation of the dashboard.
pub fn average_donation(gmv: i64, count: i64) -> (r: i64)
    ensures
        r as int == average_spec(gmv as int, count as int),
{
    if count <= 0 {
        return 0;
    }
    let a: i128 = gmv as i128;
    let n: i128 = count as i128;
    let q: i128 = if a >= 0 { a / n } else { -((-a) / n) };
    proof {
        let m: int = if a >= 0 { a as int } else { -(a as int) };
        assert(m / (n as int) <= m) by (nonlinear_arith)
            requires m >= 0, n >= 1;
        assert(m / (n as int) >= 0) by (nonlinear_arith)
            requires m >= 0, n >= 1;
    }
    q as i64
}

/// The clauses and parameters of the donation export: the accounting filter, date bounds,
/// then cause and status (the export always joins the project).
pub open spec fn export_filter_spec(from: Option<Seq<char>>, to: Option<Seq<char>>, cause: Option<Seq<char>>, status: Option<Seq<char>>) -> (Seq<Seq<char>>, Seq<Seq<char>>) {
    add_opt(add_opt(add_opt(add_opt((seq![accounting_clause()], Seq::<Seq<char>>::empty()),
        "d.created_at >= "@, from), "d.created_at <= "@, to), "p.cause = "@, cause), "p.status = "@, status)
}

/// The WHERE condition and parameters of the donation export.
pub fn export_filter_where(from: Option<&str>, to: Option<&str>, cause: Option<&str>, status: Option<&str>) -> (r: (String, Vec<String>))
    ensures
        r.0@ == join_with(export_filter_spec(opt_str_view(from), opt_str_view(to), opt_str_view(cause), opt_str_view(status)).0, " AND "@),
        r.1@.map_values(|s: String| s@) == export_filter_spec(opt_str_view(from), opt_str_view(to), opt_str_view(cause), opt_str_view(status)).1,
{
    let mut c = SqlConditions::starting_with("(d.is_reversal = 0 OR d.reversal_approved = 1)");
    c.add_opt("d.created_at >= ", from);
    c.add_opt("d.created_at <= ", to);
    c.add_opt("p.cause = ", cause);
    c.add_opt("p.status = ", status);
    let w = c.where_sql();
    (w, c.params)
}

// ── CSV export ──

/// What the `csv` crate writes for one record with a default writer: the fields, quoted where
/// needed, separated by commas and ended by a newline.
pub uninterp spec fn csv_line(fields: Seq<Seq<char>>) -> Seq<char>;

/// One CSV record as text (`csv::Writer::from_writer(Vec::new())`, `write_record`,
/// `into_inner`, `String::from_utf8`). The writer's output for a record depends on that
/// record alone, so records written one by one and joined are what one writer would write.
#[verifier::external_body]
fn csv_record(fields: &[String]) -> (res: String)
    ensures
        res@ == csv_line(fields@.map_values(|s: String| s@)),
{
    let mut w = csv::Writer::from_writer(Vec::new());
    let _ = w.write_record(fields);
    let bytes = w.into_inner().unwrap_or_default();
    String::from_utf8(bytes).unwrap_or_default()
}

/// One exported donation, with the donor's name already masked.
#[derive(Clone, Debug)]
pub struct ExportRow {
    pub pledge_number: String,
    pub project_title: String,
    pub masked_donor: String,
    pub amount_cents: i64,
    pub budget_line: Option<String>,
    pub created_at: String,
}

/// The header of the donation export.
pub open spec fn export_header() -> Seq<Seq<char>> {
    seq!["Pledge#"@, "Project"@, "Donor (masked)"@, "Amount (cents)"@, "Budget Line"@, "Date"@]
}

/// The fields of an exported row: the amount in decimal, a missing budget line as empty text.
pub open spec fn export_fields(r: ExportRow) -> Seq<Seq<char>> {
    seq![
        r.pledge_number@,
        r.project_title@,
        r.masked_donor@,
        signed_decimal(r.amount_cents as int),
        match r.budget_line { Some(b) => b@, None => Seq::<char>::empty() },
        r.created_at@,
    ]
}

/// The export text: the header line, then one line per row, in order.
pub open spec fn export_text(rows: Seq<ExportRow>) -> Seq<char>
    decreases rows.len(),
{
    if rows.len() == 0 {
        csv_line(export_header())
    } else {
        export_text(rows.drop_last()) + csv_line(export_fields(rows.last()))
    }
}

/// Writes the donation export as CSV.
pub fn export_csv(rows: &[ExportRow]) -> (r: String)
    ensures
        r@ == export_text(rows@),
{
    let mut header: Vec<String> = Vec::new();
    header.push(String::from_str("Pledge#"));
    header.push(String::from_str("Project"));
    header.push(String::from_str("Donor (masked)"));
    header.push(String::from_str("Amount (cents)"));
    header.push(String::from_str("Budget Line"));
    header.push(String::from_str("Date"));
    assert(header@.map_values(|s: String| s@) =~= export_header());
    let first = csv_record(header.as_slice());
    let mut out = chars_of(first.as_str());
    let mut i: usize = 0;
    while i < rows.len()
        invariant
            i <= rows@.len(),
            out@ == export_text(rows@.take(i as int)),
        decreases rows@.len() - i,
    {
        let row = &rows[i];
        let mut fields: Vec<String> = Vec::new();
        fields.push(row.pledge_number.clone());
        fields.push(row.project_title.clone());
        fields.push(row.masked_donor.clone());
        let amount = i64_to_decimal(row.amount_cents);
        fields.push(string_of(amount.as_slice()));
        match &row.budget_line {
            Some(b) => fields.push(b.clone()),
            None => fields.push(String::new()),
        }
        fields.push(row.created_at.clone());
        assert(fields@.map_values(|s: String| s@) =~= export_fields(rows@[i as int]));
        let line = csv_record(fields.as_slice());
        let lv = chars_of(line.as_str());
        extend_chars(&mut out, &lv);
        assert(rows@.take(i + 1).drop_last() =~= rows@.take(i as int));
        i += 1;
    }
    assert(rows@.take(rows@.len() as int) =~= rows@);
    string_of(out.as_slice())
}

} // verus!
