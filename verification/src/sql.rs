use vstd::prelude::*;

use crate::input::FieldMap;
use crate::text::{bool_flag, i64_dec, spec_bool_flag, spec_idec};

verus! {

/// The views of an ordered column/value pair list.
pub open spec fn pairs_view(ps: Seq<(String, String)>) -> Seq<(Seq<char>, Seq<char>)> {
    ps.map_values(|p: (String, String)| (p.0@, p.1@))
}

/// The ordered (column, canonical value) pairs that one registration
/// writes: the required fields, then whichever optional flags were
/// supplied, then the server-assigned `registered` timestamp. Both the
/// column list and the placeholder values of the insert statement are
/// projected from this one sequence, so they can never fall out of step.
pub open spec fn spec_pairs(m: FieldMap, registered: int) -> Seq<(Seq<char>, Seq<char>)> {
    seq![
        ("name"@, m.name@),
        ("description"@, m.description@),
        ("enable"@, spec_bool_flag(m.enable)),
    ] + (match m.long_order {
        Some(b) => seq![("long_order"@, spec_bool_flag(b))],
        None => Seq::empty(),
    }) + (match m.short_order {
        Some(b) => seq![("short_order"@, spec_bool_flag(b))],
        None => Seq::empty(),
    }) + seq![("registered"@, spec_idec(registered))]
}

/// Build the ordered column/value pair list for one registration from the
/// normalized field map and the creation timestamp.
pub fn insert_pairs(m: &FieldMap, registered: i64) -> (ps: Vec<(String, String)>)
    ensures
        pairs_view(ps@) == spec_pairs(*m, registered as int),
{
    let mut ps: Vec<(String, String)> = Vec::new();
    ps.push((String::from_str("name"), m.name.clone()));
    ps.push((String::from_str("description"), m.description.clone()));
    ps.push((String::from_str("enable"), bool_flag(m.enable)));
    if let Some(b) = m.long_order {
        ps.push((String::from_str("long_order"), bool_flag(b)));
    }
    if let Some(b) = m.short_order {
        ps.push((String::from_str("short_order"), bool_flag(b)));
    }
    ps.push((String::from_str("registered"), i64_dec(registered)));
    proof {
        assert(pairs_view(ps@) =~= spec_pairs(*m, registered as int));
    }
    ps
}

/// The comma-separated column list of an ordered pair sequence.
pub open spec fn spec_cols(ps: Seq<(Seq<char>, Seq<char>)>) -> Seq<char>
    decreases ps.len(),
{
    if ps.len() == 0 {
        Seq::empty()
    } else if ps.len() == 1 {
        ps[0].0
    } else {
        spec_cols(ps.drop_last()) + seq![','] + ps.last().0
    }
}

/// The comma-separated placeholder list for `n` parameters.
pub open spec fn spec_marks(n: nat) -> Seq<char>
    decreases n,
{
    if n == 0 {
        Seq::empty()
    } else if n == 1 {
        seq!['?']
    } else {
        spec_marks((n - 1) as nat) + seq![',', '?']
    }
}

/// How many placeholder marks a piece of statement text holds.
pub open spec fn count_marks(s: Seq<char>) -> nat
    decreases s.len(),
{
    if s.len() == 0 {
        0
    } else {
        count_marks(s.drop_last()) + (if s.last() == '?' {
            1nat
        } else {
            0nat
        })
    }
}

/// One placeholder per value: the placeholder list built for `n`
/// parameters holds exactly `n` marks, so the statement can never offer
/// the bound values more or fewer slots than there are values.
pub proof fn lemma_one_mark_per_value(n: nat)
    ensures
        count_marks(spec_marks(n)) == n,
    decreases n,
{
    if n == 0 {
    } else if n == 1 {
        assert(seq!['?'].drop_last() =~= Seq::<char>::empty());
        assert(seq!['?'].last() == '?');
        assert(count_marks(Seq::<char>::empty()) == 0);
        assert(count_marks(seq!['?']) == 1);
        assert(count_marks(spec_marks(n)) == 1);
    } else {
        lemma_one_mark_per_value((n - 1) as nat);
        let a = spec_marks((n - 1) as nat);
        let s = a + seq![',', '?'];
        assert(spec_marks(n) == s);
        assert(s.last() == '?');
        assert(s.drop_last() =~= a + seq![',']);
        assert((a + seq![',']).last() == ',');
        assert((a + seq![',']).drop_last() =~= a);
        assert(count_marks(a + seq![',']) == count_marks(a));
        assert(count_marks(s) == count_marks(a + seq![',']) + 1);
    }
}

/// The full insert statement for an ordered pair sequence: its column list
/// is exactly the pair columns plus the fixed `token` column, whose value
/// the storage engine draws itself from its secure random primitive, so
/// that no application state ever holds a token for an uncommitted row.
pub open spec fn spec_insert_sql(ps: Seq<(Seq<char>, Seq<char>)>) -> Seq<char> {
    "INSERT INTO bot ("@ + spec_cols(ps) + ", token) VALUES ("@ + spec_marks(ps.len())
        + ", hex(randomblob(16)))"@
}

/// Build the insert statement and its parameter list from one ordered
/// pair list: the statement text is exactly `spec_insert_sql` of the
/// pairs, and the parameters are the pair values in the same order as the
/// columns they fill.
pub fn build_insert_statement(ps: &Vec<(String, String)>) -> (r: (String, Vec<String>))
    ensures
        r.0@ == spec_insert_sql(pairs_view(ps@)),
        r.1@.len() == ps@.len(),
        forall|j: int| 0 <= j < ps@.len() ==> r.1@[j]@ == ps@[j].1@,
{
    let ghost pv = pairs_view(ps@);
    let mut cols = String::new();
    let mut marks = String::new();
    let mut vals: Vec<String> = Vec::new();
    let mut i: usize = 0;
    while i < ps.len()
        invariant
            i <= ps@.len(),
            pv == pairs_view(ps@),
            cols@ == spec_cols(pv.take(i as int)),
            marks@ == spec_marks(i as nat),
            vals@.len() == i,
            forall|j: int| 0 <= j < i ==> vals@[j]@ == ps@[j].1@,
        decreases ps@.len() - i,
    {
        if i > 0 {
            cols.append(",");
            marks.append(",");
        }
        cols.append(ps[i].0.as_str());
        marks.append("?");
        vals.push(ps[i].1.clone());
        proof {
            reveal_strlit(",");
            reveal_strlit("?");
            let gi = i as int;
            assert(pv.take(gi + 1).len() == gi + 1);
            assert(pv.take(gi + 1).drop_last() =~= pv.take(gi));
            assert(pv.take(gi + 1).last() == pv[gi]);
            assert(pv[gi].0 == ps@[gi].0@);
            if i == 0 {
                assert(spec_cols(pv.take(1)) == pv.take(1)[0].0);
                assert(cols@ =~= spec_cols(pv.take(gi + 1)));
                assert(marks@ =~= spec_marks((i + 1) as nat));
            } else {
                assert(spec_cols(pv.take(gi + 1)) == spec_cols(pv.take(gi)) + seq![','] + pv[gi].0);
                assert(cols@ =~= spec_cols(pv.take(gi + 1)));
                assert(spec_marks((i + 1) as nat) == spec_marks(i as nat) + seq![',', '?']);
                assert(marks@ =~= spec_marks((i + 1) as nat));
            }
        }
        i += 1;
    }
    proof {
        assert(pv.take(ps@.len() as int) =~= pv);
    }
    let mut sql = String::from_str("INSERT INTO bot (");
    sql.append(cols.as_str());
    sql.append(", token) VALUES (");
    sql.append(marks.as_str());
    sql.append(", hex(randomblob(16)))");
    (sql, vals)
}

} // verus!
