//! Columns of the option table drawn inside an expanded expiration.
use vstd::prelude::*;

verus! {

/// A quantity shown for one side (call or put) of an option pair.
#[derive(Clone, Copy, Debug, PartialEq, Eq, Structural)]
pub enum Field {
    Symbol,
    Bid,
    Ask,
    BidSize,
    AskSize,
    Volume,
    Delta,
    Gamma,
    Vega,
}

/// A column of the option table: the call's fields, the strike, the put's fields.
#[derive(Clone, Copy, Debug, PartialEq, Eq, Structural)]
pub enum Column {
    Call(Field),
    Strike,
    Put(Field),
}

pub open spec fn is_greek_field(f: Field) -> bool {
    f == Field::Delta || f == Field::Gamma || f == Field::Vega
}

pub open spec fn is_greek_column(c: Column) -> bool {
    match c {
        Column::Call(f) => is_greek_field(f),
        Column::Put(f) => is_greek_field(f),
        Column::Strike => false,
    }
}

/// The fields shown for one side, in order.
pub open spec fn side_fields(show_greeks: bool) -> Seq<Field> {
    if show_greeks {
        seq![
            Field::Symbol,
            Field::Bid,
            Field::Ask,
            Field::BidSize,
            Field::AskSize,
            Field::Volume,
            Field::Delta,
            Field::Gamma,
            Field::Vega,
        ]
    } else {
        seq![Field::Symbol, Field::Bid, Field::Ask, Field::BidSize, Field::AskSize, Field::Volume]
    }
}

/// The table's columns, left to right: the call side, the strike, the put side.
pub open spec fn columns(show_greeks: bool) -> Seq<Column> {
    side_fields(show_greeks).map_values(|f: Field| Column::Call(f)) + seq![Column::Strike]
        + side_fields(show_greeks).map_values(|f: Field| Column::Put(f))
}

pub open spec fn column_width_spec(c: Column) -> u16 {
    match c {
        Column::Call(Field::Symbol) => 10,
        Column::Put(Field::Symbol) => 10,
        Column::Strike => 10,
        _ => 8,
    }
}

pub open spec fn field_title_spec(f: Field) -> Seq<char> {
    match f {
        Field::Symbol => "Sym"@,
        Field::Bid => "Bid"@,
        Field::Ask => "Ask"@,
        Field::BidSize => "Bid Size"@,
        Field::AskSize => "Ask Size"@,
        Field::Volume => "Volume"@,
        Field::Delta => "Delta"@,
        Field::Gamma => "Gamma"@,
        Field::Vega => "Vega"@,
    }
}

pub open spec fn column_title_spec(c: Column) -> Seq<char> {
    match c {
        Column::Call(Field::Symbol) => "Call Sym"@,
        Column::Put(Field::Symbol) => "Put Sym"@,
        Column::Call(f) => field_title_spec(f),
        Column::Put(f) => field_title_spec(f),
        Column::Strike => "Strike"@,
    }
}

impl Field {
    pub fn is_greek(&self) -> (r: bool)
        ensures
            r == is_greek_field(*self),
    {
        match self {
            Field::Delta | Field::Gamma | Field::Vega => true,
            _ => false,
        }
    }
}

impl Column {
    pub fn is_greek(&self) -> (r: bool)
        ensures
            r == is_greek_column(*self),
    {
        match self {
            Column::Call(f) => f.is_greek(),
            Column::Put(f) => f.is_greek(),
            Column::Strike => false,
        }
    }

    /// Width of the column in terminal cells.
    pub fn width(&self) -> (r: u16)
        ensures
            r == column_width_spec(*self),
    {
        match self {
            Column::Call(Field::Symbol) | Column::Put(Field::Symbol) | Column::Strike => 10,
            _ => 8,
        }
    }

    /// The column's header text.
    pub fn title(&self) -> (r: &'static str)
        ensures
            r@ == column_title_spec(*self),
    {
        match self {
            Column::Call(Field::Symbol) => "Call Sym",
            Column::Put(Field::Symbol) => "Put Sym",
            Column::Strike => "Strike",
            Column::Call(f) | Column::Put(f) => match f {
                Field::Symbol => "Sym",
                Field::Bid => "Bid",
                Field::Ask => "Ask",
                Field::BidSize => "Bid Size",
                Field::AskSize => "Ask Size",
                Field::Volume => "Volume",
                Field::Delta => "Delta",
                Field::Gamma => "Gamma",
                Field::Vega => "Vega",
            },
        }
    }
}

/// The fields shown for one side, in order.
pub fn fields_of_side(show_greeks: bool) -> (r: Vec<Field>)
    ensures
        r@ == side_fields(show_greeks),
{
    let mut r: Vec<Field> = vec![
        Field::Symbol,
        Field::Bid,
        Field::Ask,
        Field::BidSize,
        Field::AskSize,
        Field::Volume,
    ];
    if show_greeks {
        r.push(Field::Delta);
        r.push(Field::Gamma);
        r.push(Field::Vega);
    }
    assert(r@ =~= side_fields(show_greeks));
    r
}

/// The table's columns, left to right.
pub fn table_columns(show_greeks: bool) -> (r: Vec<Column>)
    ensures
        r@ == columns(show_greeks),
{
    let side = fields_of_side(show_greeks);
    let mut r: Vec<Column> = Vec::new();
    let mut i: usize = 0;
    while i < side.len()
        invariant
            i <= side.len(),
            side@ == side_fields(show_greeks),
            r@ =~= side@.take(i as int).map_values(|f: Field| Column::Call(f)),
        decreases side.len() - i,
    {
        r.push(Column::Call(side[i]));
        i = i + 1;
        assert(r@ =~= side@.take(i as int).map_values(|f: Field| Column::Call(f)));
    }
    assert(side@.take(side.len() as int) =~= side@);
    r.push(Column::Strike);
    let ghost head = r@;
    let mut j: usize = 0;
    while j < side.len()
        invariant
            j <= side.len(),
            side@ == side_fields(show_greeks),
            r@ =~= head + side@.take(j as int).map_values(|f: Field| Column::Put(f)),
        decreases side.len() - j,
    {
        r.push(Column::Put(side[j]));
        j = j + 1;
        assert(r@ =~= head + side@.take(j as int).map_values(|f: Field| Column::Put(f)));
    }
    assert(side@.take(side.len() as int) =~= side@);
    assert(r@ =~= columns(show_greeks));
    r
}

/// Widths of the table's columns, left to right.
pub fn table_widths(show_greeks: bool) -> (r: Vec<u16>)
    ensures
        r@ == columns(show_greeks).map_values(|c: Column| column_width_spec(c)),
{
    let cols = table_columns(show_greeks);
    let mut r: Vec<u16> = Vec::new();
    let mut i: usize = 0;
    while i < cols.len()
        invariant
            i <= cols.len(),
            cols@ == columns(show_greeks),
            r@ =~= cols@.take(i as int).map_values(|c: Column| column_width_spec(c)),
        decreases cols.len() - i,
    {
        r.push(cols[i].width());
        i = i + 1;
        assert(r@ =~= cols@.take(i as int).map_values(|c: Column| column_width_spec(c)));
    }
    assert(cols@.take(cols.len() as int) =~= cols@);
    r
}

} // verus!
