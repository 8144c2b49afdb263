//! The shape of published tax data: scales, their rows, and their labels.

use crate::decimal::Decimal;
use crate::text::{chars_of, str_equal};
use vstd::string::StrSliceExecFns;
use vstd::prelude::*;

verus! {

/// The kind of bracket table a scale holds.
#[derive(Clone, Copy, PartialEq, Eq, Structural, Debug)]
pub enum TableType {
    Unknown,
    Bund,
    Flattax,
    Formel,
    Freiburg,
    Zuerich,
}

/// One row of a published tax schedule. `amount` is the lower boundary of
/// the bracket, or, in Zurich-style tables, its width.
#[derive(Clone, PartialEq, Debug)]
pub struct ScaleEntry {
    pub formula: String,
    pub taxes: Decimal,
    pub percent: Decimal,
    pub amount: Decimal,
}

} // verus!

verus! {

/// A scale: the rows of one table together with what it applies to.
#[derive(Clone, PartialEq, Debug)]
pub struct Scale {
    pub location: Location,
    pub group: Vec<Group>,
    pub splitting: Decimal,
    pub table_type: TableType,
    pub target: Target,
    pub tax_type: TaxType,
    pub table: Vec<ScaleEntry>,
}

/// Where a scale or a rate applies.
#[derive(Clone, PartialEq, Eq, Debug)]
pub struct Location {
    pub bfs_id: u32,
    pub bfs_name: String,
    pub canton_id: u32,
    pub canton: String,
    pub city: String,
    pub tax_location_id: u32,
    pub zip_code: String,
}

/// The authority that levies a tax.
#[derive(Clone, Copy, PartialEq, Eq, Structural, Debug)]
pub enum Target {
    Bund,
    Gemeinde,
    Kanton,
    Kirche,
}

/// The kind of tax.
#[derive(Clone, Copy, PartialEq, Eq, Structural, Debug)]
pub enum TaxType {
    EinkommensSteuer,
    Erbschaft,
    GewinnSteuer,
    KapitalSteuer,
    VermoegensSteuer,
    VorsorgeSteuer,
}

/// The group of taxpayers that a scale is for.
#[derive(Clone, Copy, PartialEq, Eq, Structural, Debug)]
pub enum Group {
    Alle,
    LedigAlleine,
    LedigKonkubinat,
    LedigMitKinder,
    LedigOhneKinder,
    TypGeschwisterGeschwister,
    TypGeschwisterStiefgeschwister,
    TypGrosselternGrosseltern,
    TypGrosselternPflegegrosseltern,
    TypGrosselternStiefgrosseltern,
    TypGrosselternUrgrosseltern,
    TypEhepartnerEhepartner,
    TypElternEltern,
    TypElternPflegeeltern,
    TypElternStiefeltern,
    TypKinderKinder,
    TypKinderNachkommenkinder,
    TypKinderNachkommenpflegekinder,
    TypKinderNachkommenstiefkinder,
    TypKinderPatenkinder,
    TypKinderPflegekinder,
    TypKinderStiefkinder,
    TypKinderVollwaisen,
    TypOnkeltantenCousin,
    TypOnkeltantenGrossneffen,
    TypOnkeltantenGrossonkel,
    TypOnkeltantenNachkommencousin,
    TypOnkeltantenNeffen,
    TypOnkeltantenOnkel,
    TypOnkeltantenUrgrossneffen,
    TypPartnerLebenspartner,
    TypPartnerLebenspartnerMitKind,
    TypPartnerVerlobter,
    TypUebrigeAngestellte,
    TypUebrigeBeschraenkt,
    TypUebrigeDauernBeduerftigt,
    TypUebrigePersonenvereinigungen,
    TypUebrigeSchwiegereltern,
    TypUebrigeSchwiegersohn,
    TypUebrigeStiftungen,
    TypUebrigeUebrige,
    TypUebrigeUnehelichekinder,
    TypUebrigeVerschwaegerte,
    Verheiratet,
}

} // verus!

verus! {

/// A label that names no known value.
#[derive(Clone, PartialEq, Eq, Debug)]
pub struct UnknownName {
    pub name: String,
}

impl Group {
    /// The label of the group in published data.
    pub open spec fn name(self) -> Seq<char> {
        match self {
            Group::Alle => "ALLE"@,
            Group::LedigAlleine => "LEDIG_ALLEINE"@,
            Group::LedigKonkubinat => "LEDIG_KONKUBINAT"@,
            Group::LedigOhneKinder => "LEDIG_OHNE_KINDER"@,
            Group::LedigMitKinder => "LEDIG_MIT_KINDER"@,
            Group::TypGeschwisterGeschwister => "TYP_GESCHWISTER_GESCHWISTER"@,
            Group::TypGeschwisterStiefgeschwister => "TYP_GESCHWISTER_STIEFGESCHWISTER"@,
            Group::TypGrosselternGrosseltern => "TYP_GROSSELTERN_GROSSELTERN"@,
            Group::TypGrosselternPflegegrosseltern => "TYP_GROSSELTERN_PFLEGEGROSSELTERN"@,
            Group::TypGrosselternStiefgrosseltern => "TYP_GROSSELTERN_STIEFGROSSELTERN"@,
            Group::TypGrosselternUrgrosseltern => "TYP_GROSSELTERN_URGROSSELTERN"@,
            Group::TypEhepartnerEhepartner => "TYP_EHEPARTNER_EHEPARTNER"@,
            Group::TypElternEltern => "TYP_ELTERN_ELTERN"@,
            Group::TypElternPflegeeltern => "TYP_ELTERN_PFLEGEELTERN"@,
            Group::TypElternStiefeltern => "TYP_ELTERN_STIEFELTERN"@,
            Group::TypKinderKinder => "TYP_KINDER_KINDER"@,
            Group::TypKinderNachkommenkinder => "TYP_KINDER_NACHKOMMENKINDER"@,
            Group::TypKinderNachkommenpflegekinder => "TYP_KINDER_NACHKOMMENPFLEGEKINDER"@,
            Group::TypKinderNachkommenstiefkinder => "TYP_KINDER_NACHKOMMENSTIEFKINDER"@,
            Group::TypKinderPatenkinder => "TYP_KINDER_PATENKINDER"@,
            Group::TypKinderPflegekinder => "TYP_KINDER_PFLEGEKINDER"@,
            Group::TypKinderStiefkinder => "TYP_KINDER_STIEFKINDER"@,
            Group::TypKinderVollwaisen => "TYP_KINDER_VOLLWAISEN"@,
            Group::TypOnkeltantenCousin => "TYP_ONKELTANTEN_COUSIN"@,
            Group::TypOnkeltantenGrossneffen => "TYP_ONKELTANTEN_GROSSNEFFEN"@,
            Group::TypOnkeltantenGrossonkel => "TYP_ONKELTANTEN_GROSSONKEL"@,
            Group::TypOnkeltantenNachkommencousin => "TYP_ONKELTANTEN_NACHKOMMENCOUSIN"@,
            Group::TypOnkeltantenNeffen => "TYP_ONKELTANTEN_NEFFEN"@,
            Group::TypOnkeltantenOnkel => "TYP_ONKELTANTEN_ONKEL"@,
            Group::TypOnkeltantenUrgrossneffen => "TYP_ONKELTANTEN_URGROSSNEFFEN"@,
            Group::TypPartnerLebenspartner => "TYP_PARTNER_LEBENSPARTNER"@,
            Group::TypPartnerLebenspartnerMitKind => "TYP_PARTNER_LEBENSPARTNER_MIT_KIND"@,
            Group::TypPartnerVerlobter => "TYP_PARTNER_VERLOBTER"@,
            Group::TypUebrigeAngestellte => "TYP_UEBRIGE_ANGESTELLTE"@,
            Group::TypUebrigeBeschraenkt => "TYP_UEBRIGE_BESCHRAENKT"@,
            Group::TypUebrigeDauernBeduerftigt => "TYP_UEBRIGE_DAUERND_BEDUERFTIGT"@,
            Group::TypUebrigePersonenvereinigungen => "TYP_UEBRIGE_PERSONENVEREINIGUNGEN"@,
            Group::TypUebrigeSchwiegereltern => "TYP_UEBRIGE_SCHWIEGERELTERN"@,
            Group::TypUebrigeSchwiegersohn => "TYP_UEBRIGE_SCHWIEGERSOHN"@,
            Group::TypUebrigeStiftungen => "TYP_UEBRIGE_STIFTUNGEN"@,
            Group::TypUebrigeUebrige => "TYP_UEBRIGE_UEBRIGE"@,
            Group::TypUebrigeUnehelichekinder => "TYP_UEBRIGE_UNEHELICHEKINDER"@,
            Group::TypUebrigeVerschwaegerte => "TYP_UEBRIGE_VERSCHWAEGERTE"@,
            Group::Verheiratet => "VERHEIRATET"@,
        }
    }

    /// The group with this label.
    pub fn from_name(name: &str) -> (r: Result<Group, UnknownName>)
        ensures
            match r {
                Ok(g) => g.name() == name@,
                Err(e) => (forall|g: Group| g.name() != name@) && e.name@ == name@,
            },
    {
        if str_equal(name, "ALLE") {
            Ok(Group::Alle)
        } else if str_equal(name, "LEDIG_ALLEINE") {
            Ok(Group::LedigAlleine)
        } else if str_equal(name, "LEDIG_KONKUBINAT") {
            Ok(Group::LedigKonkubinat)
        } else if str_equal(name, "LEDIG_OHNE_KINDER") {
            Ok(Group::LedigOhneKinder)
        } else if str_equal(name, "LEDIG_MIT_KINDER") {
            Ok(Group::LedigMitKinder)
        } else if str_equal(name, "TYP_GESCHWISTER_GESCHWISTER") {
            Ok(Group::TypGeschwisterGeschwister)
        } else if str_equal(name, "TYP_GESCHWISTER_STIEFGESCHWISTER") {
            Ok(Group::TypGeschwisterStiefgeschwister)
        } else if str_equal(name, "TYP_GROSSELTERN_GROSSELTERN") {
            Ok(Group::TypGrosselternGrosseltern)
        } else if str_equal(name, "TYP_GROSSELTERN_PFLEGEGROSSELTERN") {
            Ok(Group::TypGrosselternPflegegrosseltern)
        } else if str_equal(name, "TYP_GROSSELTERN_STIEFGROSSELTERN") {
            Ok(Group::TypGrosselternStiefgrosseltern)
        } else if str_equal(name, "TYP_GROSSELTERN_URGROSSELTERN") {
            Ok(Group::TypGrosselternUrgrosseltern)
        } else if str_equal(name, "TYP_EHEPARTNER_EHEPARTNER") {
            Ok(Group::TypEhepartnerEhepartner)
        } else if str_equal(name, "TYP_ELTERN_ELTERN") {
            Ok(Group::TypElternEltern)
        } else if str_equal(name, "TYP_ELTERN_PFLEGEELTERN") {
            Ok(Group::TypElternPflegeeltern)
        } else if str_equal(name, "TYP_ELTERN_STIEFELTERN") {
            Ok(Group::TypElternStiefeltern)
        } else if str_equal(name, "TYP_KINDER_KINDER") {
            Ok(Group::TypKinderKinder)
        } else if str_equal(name, "TYP_KINDER_NACHKOMMENKINDER") {
            Ok(Group::TypKinderNachkommenkinder)
        } else if str_equal(name, "TYP_KINDER_NACHKOMMENPFLEGEKINDER") {
            Ok(Group::TypKinderNachkommenpflegekinder)
        } else if str_equal(name, "TYP_KINDER_NACHKOMMENSTIEFKINDER") {
            Ok(Group::TypKinderNachkommenstiefkinder)
        } else if str_equal(name, "TYP_KINDER_PATENKINDER") {
            Ok(Group::TypKinderPatenkinder)
        } else if str_equal(name, "TYP_KINDER_PFLEGEKINDER") {
            Ok(Group::TypKinderPflegekinder)
        } else if str_equal(name, "TYP_KINDER_STIEFKINDER") {
            Ok(Group::TypKinderStiefkinder)
        } else if str_equal(name, "TYP_KINDER_VOLLWAISEN") {
            Ok(Group::TypKinderVollwaisen)
        } else if str_equal(name, "TYP_ONKELTANTEN_COUSIN") {
            Ok(Group::TypOnkeltantenCousin)
        } else if str_equal(name, "TYP_ONKELTANTEN_GROSSNEFFEN") {
            Ok(Group::TypOnkeltantenGrossneffen)
        } else if str_equal(name, "TYP_ONKELTANTEN_GROSSONKEL") {
            Ok(Group::TypOnkeltantenGrossonkel)
        } else if str_equal(name, "TYP_ONKELTANTEN_NACHKOMMENCOUSIN") {
            Ok(Group::TypOnkeltantenNachkommencousin)
        } else if str_equal(name, "TYP_ONKELTANTEN_NEFFEN") {
            Ok(Group::TypOnkeltantenNeffen)
        } else if str_equal(name, "TYP_ONKELTANTEN_ONKEL") {
            Ok(Group::TypOnkeltantenOnkel)
        } else if str_equal(name, "TYP_ONKELTANTEN_URGROSSNEFFEN") {
            Ok(Group::TypOnkeltantenUrgrossneffen)
        } else if str_equal(name, "TYP_PARTNER_LEBENSPARTNER") {
            Ok(Group::TypPartnerLebenspartner)
        } else if str_equal(name, "TYP_PARTNER_LEBENSPARTNER_MIT_KIND") {
            Ok(Group::TypPartnerLebenspartnerMitKind)
        } else if str_equal(name, "TYP_PARTNER_VERLOBTER") {
            Ok(Group::TypPartnerVerlobter)
        } else if str_equal(name, "TYP_UEBRIGE_ANGESTELLTE") {
            Ok(Group::TypUebrigeAngestellte)
        } else if str_equal(name, "TYP_UEBRIGE_BESCHRAENKT") {
            Ok(Group::TypUebrigeBeschraenkt)
        } else if str_equal(name, "TYP_UEBRIGE_DAUERND_BEDUERFTIGT") {
            Ok(Group::TypUebrigeDauernBeduerftigt)
        } else if str_equal(name, "TYP_UEBRIGE_PERSONENVEREINIGUNGEN") {
            Ok(Group::TypUebrigePersonenvereinigungen)
        } else if str_equal(name, "TYP_UEBRIGE_SCHWIEGERELTERN") {
            Ok(Group::TypUebrigeSchwiegereltern)
        } else if str_equal(name, "TYP_UEBRIGE_SCHWIEGERSOHN") {
            Ok(Group::TypUebrigeSchwiegersohn)
        } else if str_equal(name, "TYP_UEBRIGE_STIFTUNGEN") {
            Ok(Group::TypUebrigeStiftungen)
        } else if str_equal(name, "TYP_UEBRIGE_UEBRIGE") {
            Ok(Group::TypUebrigeUebrige)
        } else if str_equal(name, "TYP_UEBRIGE_UNEHELICHEKINDER") {
            Ok(Group::TypUebrigeUnehelichekinder)
        } else if str_equal(name, "TYP_UEBRIGE_VERSCHWAEGERTE") {
            Ok(Group::TypUebrigeVerschwaegerte)
        } else if str_equal(name, "VERHEIRATET") {
            Ok(Group::Verheiratet)
        } else {
            Err(UnknownName { name: name.to_owned() })
        }
    }
}

impl std::str::FromStr for Group {
    type Err = UnknownName;

    fn from_str(s: &str) -> Result<Group, UnknownName> {
        Group::from_name(s)
    }
}

} // verus!

verus! {

/// The pieces of `s` between commas, as splitting at every comma gives them.
pub open spec fn split_commas(s: Seq<char>) -> Seq<Seq<char>>
    decreases s.len(),
{
    if s.len() == 0 {
        seq![Seq::empty()]
    } else {
        let prev = split_commas(s.drop_last());
        if s.last() == ',' {
            prev.push(Seq::empty())
        } else {
            prev.update(prev.len() - 1, prev.last().push(s.last()))
        }
    }
}

/// The pieces that are not empty, in order.
pub open spec fn non_empty(pieces: Seq<Seq<char>>) -> Seq<Seq<char>>
    decreases pieces.len(),
{
    if pieces.len() == 0 {
        Seq::empty()
    } else if pieces.last().len() == 0 {
        non_empty(pieces.drop_last())
    } else {
        non_empty(pieces.drop_last()).push(pieces.last())
    }
}

/// Some group has this label.
pub open spec fn names_group(name: Seq<char>) -> bool {
    exists|g: Group| g.name() == name
}

proof fn lemma_split_commas_len(s: Seq<char>)
    ensures
        split_commas(s).len() >= 1,
    decreases s.len(),
{
    if s.len() > 0 {
        lemma_split_commas_len(s.drop_last());
    }
}

proof fn lemma_split_commas_prefix(s: Seq<char>, i: int, j: int)
    requires
        0 <= i <= j <= s.len(),
    ensures
        split_commas(s.subrange(0, i)).len() <= split_commas(s.subrange(0, j)).len(),
        split_commas(s.subrange(0, i)).drop_last() == split_commas(s.subrange(0, j)).subrange(
            0,
            split_commas(s.subrange(0, i)).len() - 1,
        ),
    decreases j - i,
{
    lemma_split_commas_len(s.subrange(0, i));
    if i < j {
        lemma_split_commas_prefix(s, i, j - 1);
        let c = split_commas(s.subrange(0, j - 1));
        let b = split_commas(s.subrange(0, j));
        lemma_split_commas_len(s.subrange(0, j - 1));
        assert(s.subrange(0, j).drop_last() =~= s.subrange(0, j - 1));
        assert(b.len() >= c.len());
        assert(b.subrange(0, c.len() - 1) =~= c.subrange(0, c.len() - 1));
        let a = split_commas(s.subrange(0, i));
        assert(a.drop_last() =~= b.subrange(0, a.len() - 1));
    } else {
        assert(split_commas(s.subrange(0, i)).drop_last() =~= split_commas(
            s.subrange(0, j),
        ).subrange(0, split_commas(s.subrange(0, i)).len() - 1));
    }
}

proof fn lemma_non_empty_prefix(q: Seq<Seq<char>>, p: Seq<Seq<char>>)
    requires
        q.len() <= p.len(),
        q == p.subrange(0, q.len() as int),
    ensures
        non_empty(q).len() <= non_empty(p).len(),
        non_empty(q) == non_empty(p).subrange(0, non_empty(q).len() as int),
    decreases p.len(),
{
    if q.len() == p.len() {
        assert(q =~= p);
        assert(non_empty(p).subrange(0, non_empty(p).len() as int) =~= non_empty(p));
    } else {
        assert(q =~= p.drop_last().subrange(0, q.len() as int));
        lemma_non_empty_prefix(q, p.drop_last());
        let n = non_empty(q).len() as int;
        assert(non_empty(p).subrange(0, n) =~= non_empty(p.drop_last()).subrange(0, n));
    }
}

proof fn lemma_non_empty_push(d: Seq<Seq<char>>, piece: Seq<char>)
    ensures
        non_empty(d.push(piece)) == (if piece.len() == 0 {
            non_empty(d)
        } else {
            non_empty(d).push(piece)
        }),
{
    assert(d.push(piece).drop_last() =~= d);
}

/// The labels of a comma-separated list, without the empty pieces.
pub fn label_pieces(list: &str) -> (r: Vec<String>)
    ensures
        r@.len() == non_empty(split_commas(list@)).len(),
        forall|k: int|
            0 <= k < r@.len() ==> (#[trigger] r@[k])@ == non_empty(split_commas(list@))[k],
{
    let cs = chars_of(list);
    let n = cs.len();
    let mut out: Vec<String> = Vec::new();
    let ghost mut done: Seq<Seq<char>> = Seq::empty();
    let mut start: usize = 0;
    let mut i: usize = 0;
    assert(cs@.subrange(0, 0) =~= Seq::<char>::empty());
    assert(Seq::<Seq<char>>::empty().push(cs@.subrange(0, 0)) =~= seq![Seq::<char>::empty()]);
    while i <= n
        invariant
            cs@ == list@,
            n == cs@.len(),
            start <= i <= n,
            split_commas(cs@.subrange(0, i as int)) == done.push(
                cs@.subrange(start as int, i as int),
            ),
            out@.len() == non_empty(done).len(),
            forall|k: int|
                0 <= k < out@.len() ==> (#[trigger] out@[k])@ == non_empty(done)[k],
        decreases n - i,
    {
        if i == n || cs[i] == ',' {
            let ghost piece_chars = cs@.subrange(start as int, i as int);
            let ghost d2 = done.push(piece_chars);
            proof {
                lemma_non_empty_push(done, piece_chars);
                if i < n {
                    let prefix = cs@.subrange(0, i + 1);
                    assert(prefix.drop_last() =~= cs@.subrange(0, i as int));
                    lemma_split_commas_len(cs@.subrange(0, i as int));
                    assert(split_commas(prefix) == d2.push(Seq::<char>::empty()));
                    assert(split_commas(prefix).drop_last() =~= d2);
                    lemma_split_commas_prefix(cs@, i + 1, n as int);
                    assert(cs@.subrange(0, n as int) =~= cs@);
                    let full = split_commas(cs@);
                    assert(d2 =~= full.subrange(0, d2.len() as int));
                    lemma_non_empty_prefix(d2, full);
                } else {
                    assert(cs@.subrange(0, n as int) =~= cs@);
                    assert(d2 =~= d2.subrange(0, d2.len() as int));
                    lemma_non_empty_prefix(d2, d2);
                }
                assert(non_empty(d2).len() <= non_empty(split_commas(list@)).len());
                assert(non_empty(d2) == non_empty(split_commas(list@)).subrange(
                    0,
                    non_empty(d2).len() as int,
                ));
            }
            if start < i {
                let piece = list.substring_char(start, i);
                out.push(piece.to_owned());
            }
            proof {
                done = d2;
            }
            if i == n {
                assert(cs@.subrange(0, n as int) =~= list@);
                return out;
            }
            assert(cs@.subrange(i + 1, i + 1) =~= Seq::<char>::empty());
            start = i + 1;
        } else {
            let ghost prefix = cs@.subrange(0, i + 1);
            assert(prefix.drop_last() =~= cs@.subrange(0, i as int));
            proof {
                lemma_split_commas_len(cs@.subrange(0, i as int));
            }
            assert(cs@.subrange(start as int, i + 1) =~= cs@.subrange(start as int, i as int).push(
                cs@[i as int],
            ));
        }
        i += 1;
    }
    out
}


/// The groups of a comma-separated list of labels; empty pieces are skipped.
pub fn parse_groups(list: &str) -> (r: Result<Vec<Group>, UnknownName>)
    ensures
        match r {
            Ok(gs) => {
                let names = non_empty(split_commas(list@));
                &&& gs@.len() == names.len()
                &&& forall|k: int| 0 <= k < names.len() ==> (#[trigger] gs@[k]).name() == names[k]
            },
            Err(e) => {
                let names = non_empty(split_commas(list@));
                exists|j: int|
                    0 <= j < names.len() && names[j] == e.name@ && !names_group(names[j]) && (
                    forall|k: int| 0 <= k < j ==> names_group(#[trigger] names[k]))
            },
        },
{
    let pieces = label_pieces(list);
    let ghost names = non_empty(split_commas(list@));
    let mut out: Vec<Group> = Vec::new();
    let mut i: usize = 0;
    while i < pieces.len()
        invariant
            names == non_empty(split_commas(list@)),
            i <= pieces@.len() == names.len(),
            forall|k: int| 0 <= k < pieces@.len() ==> (#[trigger] pieces@[k])@ == names[k],
            out@.len() == i,
            forall|k: int| 0 <= k < i ==> (#[trigger] out@[k]).name() == names[k],
        decreases pieces@.len() - i,
    {
        match Group::from_name(pieces[i].as_str()) {
            Ok(g) => {
                out.push(g);
            },
            Err(e) => {
                proof {
                    assert(pieces@[i as int]@ == names[i as int]);
                    assert(!names_group(names[i as int]));
                    assert(names[i as int] == e.name@);
                    assert forall|k: int| 0 <= k < i implies names_group(#[trigger] names[k]) by {
                        assert(out@[k].name() == names[k]);
                    }
                }
                return Err(e);
            },
        }
        i += 1;
    }
    Ok(out)
}

} // verus!

verus! {

/// How a deduction's amount is bounded or computed.
#[derive(Clone, Copy, PartialEq, Eq, Structural, Debug)]
pub enum Format {
    Maximum,
    Minimum,
    Percent,
    Standardized,
}

impl Format {
    /// The label of the format in published data.
    pub open spec fn name(self) -> Seq<char> {
        match self {
            Format::Maximum => "MAXIMUM"@,
            Format::Minimum => "MINIMUM"@,
            Format::Percent => "PERCENT"@,
            Format::Standardized => "STANDARDIZED"@,
        }
    }

    /// The format with this label.
    pub fn from_name(name: &str) -> (r: Result<Format, UnknownName>)
        ensures
            match r {
                Ok(f) => f.name() == name@,
                Err(e) => (forall|f: Format| f.name() != name@) && e.name@ == name@,
            },
    {
        if str_equal(name, "MAXIMUM") {
            Ok(Format::Maximum)
        } else if str_equal(name, "MINIMUM") {
            Ok(Format::Minimum)
        } else if str_equal(name, "PERCENT") {
            Ok(Format::Percent)
        } else if str_equal(name, "STANDARDIZED") {
            Ok(Format::Standardized)
        } else {
            Err(UnknownName { name: name.to_owned() })
        }
    }
}

impl std::str::FromStr for Format {
    type Err = UnknownName;

    fn from_str(s: &str) -> Result<Format, UnknownName> {
        Format::from_name(s)
    }
}

} // verus!

verus! {

/// The canton number under which the federal scales are published.
pub const FEDERAL_CANTON_ID: u32 = 1;

impl Scale {
    /// A canton's income-tax scale.
    pub fn is_cantonal_income_tax(&self) -> (r: bool)
        ensures
            r == (self.tax_type == TaxType::EinkommensSteuer && self.target == Target::Kanton),
    {
        self.tax_type == TaxType::EinkommensSteuer && self.target == Target::Kanton
    }

    /// The federal income-tax scale.
    pub fn is_federal_income_tax(&self) -> (r: bool)
        ensures
            r == (self.tax_type == TaxType::EinkommensSteuer && self.target == Target::Bund
                && self.location.canton_id == FEDERAL_CANTON_ID),
    {
        self.tax_type == TaxType::EinkommensSteuer && self.target == Target::Bund
            && self.location.canton_id == FEDERAL_CANTON_ID
    }
}

} // verus!
