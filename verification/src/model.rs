//! The data of the live feed: what a board entry, a wagon or a notice holds.
//!
//! Only the fields the program reads are kept. Most are optional because the
//! upstream data differs between trains, stations, departures and arrivals.
//! Each type has `duplicate`, a copy proved equal to the value it copies.

use vstd::prelude::*;

verus! {

/// A localisable display string; the feed nests the text under `default`.
#[derive(Debug, Clone, Default)]
pub struct Destination {
    pub default: String,
}

/// A single departure or arrival on the board.
#[derive(Debug, Clone, Default)]
pub struct TrainItem {
    pub id: String,
    pub train: String,
    pub line: Option<String>,
    pub product: Option<String>,
    pub scheduled: String,
    pub expected: Option<String>,
    pub destination: Option<Destination>,
    pub origin: Option<Destination>,
    pub track: Option<String>,
    pub sector: Option<String>,
    pub remarks: Option<Vec<Remark>>,
    pub via: Option<Destination>,
    pub prioritized_vias: Option<Vec<String>>,
    pub operator: Option<String>,
    pub formation: Option<Vec<Formation>>,
}

/// One wagon (or the locomotive) in a train's composition.
#[derive(Debug, Clone, Default)]
pub struct Formation {
    /// `None` marks the locomotive; otherwise the printed wagon number.
    pub wagon_number: Option<String>,
    pub icons: Option<Vec<String>>,
    pub sector: Option<String>,
    pub destination: Option<String>,
    /// Car categories, e.g. `engine`, `sleeper`, `couchette`, `passenger`,
    /// `car` (car carrier), `restaurant`.
    pub car_type: Option<Vec<String>>,
    /// Whether the wagon is closed / not boardable.
    pub closed: Option<bool>,
    /// Layout code encoding the passenger class, e.g. `W_1`, `W_2`, `W_1_B`,
    /// `W_C_1`, `TW_B_1`.
    pub symbol: Option<String>,
}

/// A free-text remark attached to a train (delays, cancellations, ...).
#[derive(Debug, Clone, Default)]
pub struct Remark {
    pub text: Destination,
}

/// Station-wide notices have the shape of a [`Remark`].
pub type SpecialNotice = Remark;

/// The body of an `update` message: the current board plus notices.
#[derive(Debug, Clone)]
pub struct TrainData {
    pub departures: Option<Vec<TrainItem>>,
    pub arrivals: Option<Vec<TrainItem>>,
    pub special_notices: Option<Vec<SpecialNotice>>,
}

/// Wrapper around the data carried by an `update` message.
#[derive(Debug, Clone)]
pub struct UpdateParams {
    pub data: TrainData,
}

/// A top-level feed message. Only `method == "update"` carries board data.
#[derive(Debug, Clone)]
pub struct WsMessage {
    pub method: Option<String>,
    pub params: Option<UpdateParams>,
}

/// The mathematical content of a [`Formation`].
pub struct WagonView {
    pub wagon_number: Option<Seq<char>>,
    pub icons: Option<Seq<Seq<char>>>,
    pub sector: Option<Seq<char>>,
    pub destination: Option<Seq<char>>,
    pub car_type: Option<Seq<Seq<char>>>,
    pub closed: Option<bool>,
    pub symbol: Option<Seq<char>>,
}

/// The mathematical content of a [`TrainItem`].
pub struct ItemView {
    pub id: Seq<char>,
    pub train: Seq<char>,
    pub line: Option<Seq<char>>,
    pub product: Option<Seq<char>>,
    pub scheduled: Seq<char>,
    pub expected: Option<Seq<char>>,
    pub destination: Option<Seq<char>>,
    pub origin: Option<Seq<char>>,
    pub track: Option<Seq<char>>,
    pub sector: Option<Seq<char>>,
    pub remarks: Option<Seq<Seq<char>>>,
    pub via: Option<Seq<char>>,
    pub prioritized_vias: Option<Seq<Seq<char>>>,
    pub operator: Option<Seq<char>>,
    pub formation: Option<Seq<WagonView>>,
}

impl DeepView for Destination {
    type V = Seq<char>;

    open spec fn deep_view(&self) -> Seq<char> {
        self.default@
    }
}

impl DeepView for Remark {
    type V = Seq<char>;

    open spec fn deep_view(&self) -> Seq<char> {
        self.text.default@
    }
}

impl DeepView for Formation {
    type V = WagonView;

    open spec fn deep_view(&self) -> WagonView {
        WagonView {
            wagon_number: self.wagon_number.deep_view(),
            icons: self.icons.deep_view(),
            sector: self.sector.deep_view(),
            destination: self.destination.deep_view(),
            car_type: self.car_type.deep_view(),
            closed: self.closed,
            symbol: self.symbol.deep_view(),
        }
    }
}

impl DeepView for TrainItem {
    type V = ItemView;

    open spec fn deep_view(&self) -> ItemView {
        ItemView {
            id: self.id@,
            train: self.train@,
            line: self.line.deep_view(),
            product: self.product.deep_view(),
            scheduled: self.scheduled@,
            expected: self.expected.deep_view(),
            destination: self.destination.deep_view(),
            origin: self.origin.deep_view(),
            track: self.track.deep_view(),
            sector: self.sector.deep_view(),
            remarks: self.remarks.deep_view(),
            via: self.via.deep_view(),
            prioritized_vias: self.prioritized_vias.deep_view(),
            operator: self.operator.deep_view(),
            formation: self.formation.deep_view(),
        }
    }
}

/// A copy of an optional string.
pub fn dup_opt_string(o: &Option<String>) -> (r: Option<String>)
    ensures
        r == *o,
{
    match o {
        Some(s) => Some(s.clone()),
        None => None,
    }
}

/// A copy of a list of strings.
pub fn dup_strings(v: &Vec<String>) -> (r: Vec<String>)
    ensures
        r@ == v@,
{
    let mut r: Vec<String> = Vec::new();
    let mut i: usize = 0;
    while i < v.len()
        invariant
            i <= v.len(),
            r@ == v@.take(i as int),
        decreases v.len() - i,
    {
        r.push(v[i].clone());
        i += 1;
        assert(r@ =~= v@.take(i as int));
    }
    assert(v@.take(v@.len() as int) =~= v@);
    r
}

/// A copy of an optional list of strings.
pub fn dup_opt_strings(o: &Option<Vec<String>>) -> (r: Option<Vec<String>>)
    ensures
        match (r, *o) {
            (Some(a), Some(b)) => a@ == b@,
            (None, None) => true,
            _ => false,
        },
{
    match o {
        Some(v) => Some(dup_strings(v)),
        None => None,
    }
}

impl Destination {
    /// A copy of this value.
    pub fn duplicate(&self) -> (r: Destination)
        ensures
            r == *self,
    {
        Destination { default: self.default.clone() }
    }
}

/// A copy of an optional display string.
pub fn dup_opt_destination(o: &Option<Destination>) -> (r: Option<Destination>)
    ensures
        r == *o,
{
    match o {
        Some(d) => Some(d.duplicate()),
        None => None,
    }
}

impl Remark {
    /// A copy of this value.
    pub fn duplicate(&self) -> (r: Remark)
        ensures
            r == *self,
    {
        Remark { text: self.text.duplicate() }
    }
}

/// A copy of a list of remarks.
pub fn dup_remarks(v: &Vec<Remark>) -> (r: Vec<Remark>)
    ensures
        r@ == v@,
{
    let mut r: Vec<Remark> = Vec::new();
    let mut i: usize = 0;
    while i < v.len()
        invariant
            i <= v.len(),
            r@ == v@.take(i as int),
        decreases v.len() - i,
    {
        r.push(v[i].duplicate());
        i += 1;
        assert(r@ =~= v@.take(i as int));
    }
    assert(v@.take(v@.len() as int) =~= v@);
    r
}

impl Formation {
    /// A copy of this value.
    pub fn duplicate(&self) -> (r: Formation)
        ensures
            r.deep_view() == self.deep_view(),
    {
        Formation {
            wagon_number: dup_opt_string(&self.wagon_number),
            icons: dup_opt_strings(&self.icons),
            sector: dup_opt_string(&self.sector),
            destination: dup_opt_string(&self.destination),
            car_type: dup_opt_strings(&self.car_type),
            closed: self.closed,
            symbol: dup_opt_string(&self.symbol),
        }
    }
}

/// A copy of an optional list of remarks.
pub fn dup_opt_remarks(o: &Option<Vec<Remark>>) -> (r: Option<Vec<Remark>>)
    ensures
        r.deep_view() == o.deep_view(),
{
    match o {
        Some(v) => {
            let c = dup_remarks(v);
            assert(c.deep_view() =~= v.deep_view());
            Some(c)
        },
        None => None,
    }
}

/// A copy of a list of wagons.
pub fn dup_formation(v: &Vec<Formation>) -> (r: Vec<Formation>)
    ensures
        r.deep_view() == v.deep_view(),
{
    let mut r: Vec<Formation> = Vec::new();
    let mut i: usize = 0;
    while i < v.len()
        invariant
            i <= v.len(),
            r.deep_view() == v.deep_view().take(i as int),
        decreases v.len() - i,
    {
        let ghost before = r.deep_view();
        let x = v[i].duplicate();
        r.push(x);
        assert(r.deep_view() =~= before.push(x.deep_view()));
        assert(v.deep_view().take(i + 1) =~= v.deep_view().take(i as int).push(v@[i as int].deep_view()));
        i += 1;
    }
    assert(v.deep_view().take(v@.len() as int) =~= v.deep_view());
    r
}

/// A copy of an optional list of wagons.
pub fn dup_opt_formation(o: &Option<Vec<Formation>>) -> (r: Option<Vec<Formation>>)
    ensures
        r.deep_view() == o.deep_view(),
{
    match o {
        Some(v) => Some(dup_formation(v)),
        None => None,
    }
}

impl TrainItem {
    /// A copy of this entry.
    pub fn duplicate(&self) -> (r: TrainItem)
        ensures
            r.deep_view() == self.deep_view(),
    {
        let ps = dup_opt_strings(&self.prioritized_vias);
        assert(ps.deep_view() =~= self.prioritized_vias.deep_view());
        TrainItem {
            id: self.id.clone(),
            train: self.train.clone(),
            line: dup_opt_string(&self.line),
            product: dup_opt_string(&self.product),
            scheduled: self.scheduled.clone(),
            expected: dup_opt_string(&self.expected),
            destination: dup_opt_destination(&self.destination),
            origin: dup_opt_destination(&self.origin),
            track: dup_opt_string(&self.track),
            sector: dup_opt_string(&self.sector),
            remarks: dup_opt_remarks(&self.remarks),
            via: dup_opt_destination(&self.via),
            prioritized_vias: ps,
            operator: dup_opt_string(&self.operator),
            formation: dup_opt_formation(&self.formation),
        }
    }
}

/// A copy of a list of board entries.
pub fn dup_items(v: &Vec<TrainItem>) -> (r: Vec<TrainItem>)
    ensures
        r.deep_view() == v.deep_view(),
{
    let mut r: Vec<TrainItem> = Vec::new();
    let mut i: usize = 0;
    while i < v.len()
        invariant
            i <= v.len(),
            r.deep_view() == v.deep_view().take(i as int),
        decreases v.len() - i,
    {
        let ghost before = r.deep_view();
        let x = v[i].duplicate();
        r.push(x);
        assert(r.deep_view() =~= before.push(x.deep_view()));
        assert(v.deep_view().take(i + 1) =~= v.deep_view().take(i as int).push(v@[i as int].deep_view()));
        i += 1;
    }
    assert(v.deep_view().take(v@.len() as int) =~= v.deep_view());
    r
}

} // verus!
