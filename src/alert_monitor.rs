//! The alert registry, the trigger rule, and the evaluation of one polling pass.

use vstd::prelude::*;
use crate::text::{cents_text, push_cents};

verus! {

/// Whether an alert fires when the price rises over, or falls under, its threshold.
#[derive(Clone, Copy, Debug, PartialEq, Eq, Structural)]
pub enum Direction {
    Above,
    Below,
}

/// One stored alert: a threshold in cents, a direction, and when it was set,
/// in nanoseconds since the Unix epoch.
#[derive(Clone, Copy, Debug, PartialEq, Eq, Structural)]
pub struct AlertData {
    pub price: u64,
    pub condition: Direction,
    pub timestamp: i64,
}

/// What one polling pass reports for an alert whose condition held.
#[derive(Clone, Debug)]
pub struct TriggerEvent {
    pub symbol: String,
    pub threshold: u64,
    pub direction: Direction,
    pub observed_price: u64,
    pub fired_at: i64,
}

/// The registry: one entry per symbol, in order of first insertion, each with
/// its alerts in order of insertion.
pub struct AlertMonitor {
    symbols: Vec<String>,
    lists: Vec<Vec<AlertData>>,
}

/// The upper-case form of a text, as `str::to_uppercase` computes it.
pub uninterp spec fn upper_of(s: Seq<char>) -> Seq<char>;

/// The text of a timestamp in nanoseconds as `YYYY-MM-DD HH:MM`, in UTC.
pub uninterp spec fn minute_text_of(nanos: i64) -> Seq<char>;

/// Relies on `str::to_uppercase`: its result depends on the characters alone.
/// Each character maps to one or more characters, so no text gets shorter.
#[verifier::external_body]
pub(crate) fn uppercase(s: &str) -> (r: String)
    ensures
        r@ == upper_of(s@),
        r@.len() >= s@.len(),
{
    s.to_uppercase()
}

/// Relies on chrono's `DateTime::from_timestamp_nanos` (total over `i64`) and
/// its `format("%Y-%m-%d %H:%M")`.
#[verifier::external_body]
pub(crate) fn minute_text(nanos: i64) -> (r: String)
    ensures
        r@ == minute_text_of(nanos),
{
    chrono::DateTime::from_timestamp_nanos(nanos).format("%Y-%m-%d %H:%M").to_string()
}

/// The strict trigger rule: equality never fires.
pub open spec fn triggers(direction: Direction, threshold: nat, current: nat) -> bool {
    match direction {
        Direction::Above => current > threshold,
        Direction::Below => current < threshold,
    }
}

/// Decides whether an alert with this direction and threshold fires at `current`.
pub fn should_trigger(direction: Direction, threshold: u64, current: u64) -> (r: bool)
    ensures
        r == triggers(direction, threshold as nat, current as nat),
{
    match direction {
        Direction::Above => current > threshold,
        Direction::Below => current < threshold,
    }
}

/// The word for a direction in listings.
pub open spec fn direction_word(d: Direction) -> Seq<char> {
    match d {
        Direction::Above => seq!['a', 'b', 'o', 'v', 'e'],
        Direction::Below => seq!['b', 'e', 'l', 'o', 'w'],
    }
}

/// One listing line: `<SYMBOL> <above|below> $<price> (set <YYYY-MM-DD HH:MM>)`.
pub open spec fn alert_line(symbol: Seq<char>, a: AlertData) -> Seq<char> {
    symbol + seq![' '] + direction_word(a.condition) + seq![' ', '$'] + cents_text(a.price as nat)
        + seq![' ', '(', 's', 'e', 't', ' '] + minute_text_of(a.timestamp) + seq![')']
}

/// The line shown when there is no alert.
pub open spec fn no_alerts_line() -> Seq<char> {
    seq!['N', 'o', ' ', 'a', 'l', 'e', 'r', 't', 's', ' ', 's', 'e', 't']
}

/// The listing lines of one symbol's alerts, in order.
pub open spec fn entry_lines(symbol: Seq<char>, alerts: Seq<AlertData>) -> Seq<Seq<char>> {
    alerts.map_values(|a: AlertData| alert_line(symbol, a))
}

/// The listing lines of every entry, entry by entry.
pub open spec fn all_lines(entries: Seq<(Seq<char>, Seq<AlertData>)>) -> Seq<Seq<char>>
    decreases entries.len(),
{
    if entries.len() == 0 {
        seq![]
    } else {
        all_lines(entries.drop_last()) + entry_lines(entries.last().0, entries.last().1)
    }
}

/// What a listing returns: every line, or the single "No alerts set" line.
pub open spec fn listing(entries: Seq<(Seq<char>, Seq<AlertData>)>) -> Seq<Seq<char>> {
    if all_lines(entries).len() == 0 {
        seq![no_alerts_line()]
    } else {
        all_lines(entries)
    }
}

/// The index of the entry for `key`, if there is one.
pub open spec fn key_index(entries: Seq<(Seq<char>, Seq<AlertData>)>, key: Seq<char>) -> Option<int> {
    if exists|i: int| 0 <= i < entries.len() && entries[i].0 == key {
        Some(choose|i: int| 0 <= i < entries.len() && entries[i].0 == key)
    } else {
        None
    }
}

/// The entries after appending `a` under `key`.
pub open spec fn add_entry(
    entries: Seq<(Seq<char>, Seq<AlertData>)>,
    key: Seq<char>,
    a: AlertData,
) -> Seq<(Seq<char>, Seq<AlertData>)> {
    match key_index(entries, key) {
        Some(i) => entries.update(i, (key, entries[i].1.push(a))),
        None => entries.push((key, seq![a])),
    }
}

/// The entries after dropping the entry for `key`.
pub open spec fn remove_entry(
    entries: Seq<(Seq<char>, Seq<AlertData>)>,
    key: Seq<char>,
) -> Seq<(Seq<char>, Seq<AlertData>)> {
    match key_index(entries, key) {
        Some(i) => entries.remove(i),
        None => entries,
    }
}

/// Keys are unique and non-empty, no entry is empty, and every threshold is positive.
pub open spec fn entries_wf(entries: Seq<(Seq<char>, Seq<AlertData>)>) -> bool {
    &&& forall|i: int| 0 <= i < entries.len() ==> entries[i].0.len() > 0
    &&& forall|i: int, j: int|
        0 <= i < entries.len() && 0 <= j < entries.len() && i != j ==> entries[i].0 != entries[j].0
    &&& forall|i: int| 0 <= i < entries.len() ==> entries[i].1.len() > 0
    &&& forall|i: int, k: int| 0 <= i < entries.len() && 0 <= k < entries[i].1.len() ==> entries[i].1[k].price > 0
}


/// An event's plain content: symbol, threshold, direction, observed price, time.
impl View for TriggerEvent {
    type V = (Seq<char>, u64, Direction, u64, i64);

    open spec fn view(&self) -> (Seq<char>, u64, Direction, u64, i64) {
        (self.symbol@, self.threshold, self.direction, self.observed_price, self.fired_at)
    }
}

/// The events that one symbol's alerts raise at `price`, in alert order.
pub open spec fn fired(
    symbol: Seq<char>,
    alerts: Seq<AlertData>,
    price: u64,
    now: i64,
) -> Seq<(Seq<char>, u64, Direction, u64, i64)>
    decreases alerts.len(),
{
    if alerts.len() == 0 {
        seq![]
    } else {
        let a = alerts.last();
        fired(symbol, alerts.drop_last(), price, now) + if triggers(a.condition, a.price as nat, price as nat) {
            seq![(symbol, a.price, a.condition, price, now)]
        } else {
            seq![]
        }
    }
}

/// The events of one symbol: none when its price could not be had.
pub open spec fn symbol_events(
    symbol: Seq<char>,
    alerts: Seq<AlertData>,
    price: Option<u64>,
    now: i64,
) -> Seq<(Seq<char>, u64, Direction, u64, i64)> {
    match price {
        Some(p) => fired(symbol, alerts, p, now),
        None => seq![],
    }
}

/// The events of a whole pass, entry by entry; `prices[i]` is the price
/// fetched for entry `i`, or `None` where the fetch failed.
pub open spec fn tick_events(
    entries: Seq<(Seq<char>, Seq<AlertData>)>,
    prices: Seq<Option<u64>>,
    now: i64,
) -> Seq<(Seq<char>, u64, Direction, u64, i64)>
    decreases entries.len(),
{
    if entries.len() == 0 {
        seq![]
    } else {
        tick_events(entries.drop_last(), prices, now) + symbol_events(
            entries.last().0,
            entries.last().1,
            prices[entries.len() - 1],
            now,
        )
    }
}

fn direction_str(d: Direction) -> (r: &'static str)
    ensures
        r@ == direction_word(d),
{
    match d {
        Direction::Above => {
            proof { reveal_strlit("above"); }
            "above"
        },
        Direction::Below => {
            proof { reveal_strlit("below"); }
            "below"
        },
    }
}

/// The listing line of one alert.
pub fn format_line(symbol: &String, a: AlertData) -> (r: String)
    ensures
        r@ == alert_line(symbol@, a),
{
    let mut s = symbol.clone();
    proof {
        reveal_strlit(" ");
        reveal_strlit(" $");
        reveal_strlit(" (set ");
        reveal_strlit(")");
    }
    s.append(" ");
    s.append(direction_str(a.condition));
    s.append(" $");
    push_cents(&mut s, a.price);
    s.append(" (set ");
    let t = minute_text(a.timestamp);
    s.append(t.as_str());
    s.append(")");
    assert(s@ =~= alert_line(symbol@, a));
    s
}

/// The notice for a fired alert: `Alert triggered for <SYMBOL>: price <above|below> $<threshold>`.
pub open spec fn event_text(symbol: Seq<char>, direction: Direction, threshold: u64) -> Seq<char> {
    "Alert triggered for "@ + symbol + ": price "@ + direction_word(direction) + " $"@ + cents_text(
        threshold as nat,
    )
}

impl TriggerEvent {
    /// The notice to deliver for this event.
    pub fn describe(&self) -> (r: String)
        ensures
            r@ == event_text(self.symbol@, self.direction, self.threshold),
    {
        proof {
            reveal_strlit("Alert triggered for ");
            reveal_strlit(": price ");
            reveal_strlit(" $");
        }
        let mut s = String::from_str("Alert triggered for ");
        s.append(self.symbol.as_str());
        s.append(": price ");
        s.append(direction_str(self.direction));
        s.append(" $");
        push_cents(&mut s, self.threshold);
        assert(s@ =~= event_text(self.symbol@, self.direction, self.threshold));
        s
    }
}

impl View for AlertMonitor {
    type V = Seq<(Seq<char>, Seq<AlertData>)>;

    closed spec fn view(&self) -> Seq<(Seq<char>, Seq<AlertData>)> {
        Seq::new(self.symbols@.len(), |i: int| (self.symbols@[i]@, self.lists@[i]@))
    }
}

impl AlertMonitor {
    /// The registry is well formed.
    pub closed spec fn wf(&self) -> bool {
        &&& self.symbols@.len() == self.lists@.len()
        &&& entries_wf(self@)
    }

    /// A well-formed registry has unique non-empty keys, no empty entry, and
    /// positive thresholds.
    pub proof fn lemma_wf_entries(&self)
        requires
            self.wf(),
        ensures
            entries_wf(self@),
    {
    }

    /// An empty registry.
    pub fn new() -> (r: Self)
        ensures
            r.wf(),
            r@ == Seq::<(Seq<char>, Seq<AlertData>)>::empty(),
    {
        let r = AlertMonitor { symbols: Vec::new(), lists: Vec::new() };
        assert(r@ =~= Seq::<(Seq<char>, Seq<AlertData>)>::empty());
        r
    }

    fn find(&self, key: &String) -> (r: Option<usize>)
        requires
            self.wf(),
        ensures
            r is Some ==> key_index(self@, key@) == Some(r->0 as int),
            r is None ==> key_index(self@, key@) is None,
    {
        let mut i: usize = 0;
        while i < self.symbols.len()
            invariant
                self.wf(),
                i <= self.symbols@.len(),
                forall|j: int| 0 <= j < i ==> self@[j].0 != key@,
            decreases self.symbols@.len() - i,
        {
            if self.symbols[i] == *key {
                assert(self@[i as int].0 == key@);
                let ghost k = key_index(self@, key@);
                assert(k is Some);
                assert(k->0 == i as int);
                return Some(i);
            }
            i = i + 1;
        }
        assert(key_index(self@, key@) is None);
        None
    }

    /// Appends an alert under the upper-case form of `symbol`, creating the
    /// entry when the symbol has none. `price` is the threshold in cents and
    /// `created_at` the time it was set.
    pub fn add_alert(&mut self, symbol: &str, price: u64, condition: Direction, created_at: i64)
        requires
            old(self).wf(),
            symbol@.len() > 0,
            price > 0,
        ensures
            final(self).wf(),
            final(self)@ == add_entry(
                old(self)@,
                upper_of(symbol@),
                AlertData { price, condition, timestamp: created_at },
            ),
    {
        let key = uppercase(symbol);
        self.add_alert_key(key, price, condition, created_at);
    }

    /// Appends an alert under `key` as it stands, creating the entry when the
    /// key has none.
    pub fn add_alert_key(&mut self, key: String, price: u64, condition: Direction, created_at: i64)
        requires
            old(self).wf(),
            key@.len() > 0,
            price > 0,
        ensures
            final(self).wf(),
            final(self)@ == add_entry(
                old(self)@,
                key@,
                AlertData { price, condition, timestamp: created_at },
            ),
    {
        let a = AlertData { price, condition, timestamp: created_at };
        match self.find(&key) {
            Some(i) => {
                let ghost old_view = self@;
                let mut list = self.lists.remove(i);
                list.push(a);
                self.lists.insert(i, list);
                assert(key_index(old_view, key@) == Some(i as int));
                let ghost expected = add_entry(old_view, key@, a);
                assert(self@.len() == expected.len());
                assert forall|j: int| 0 <= j < self@.len() implies self@[j] == expected[j] by {
                    if j != i as int {
                        assert(self.lists@[j] == old(self).lists@[j]);
                    }
                }
                assert(self@ =~= expected);
            },
            None => {
                let ghost old_view = self@;
                let ghost k = key@;
                let one = vec![a];
                assert(one@ =~= seq![a]);
                self.symbols.push(key);
                self.lists.push(one);
                let ghost expected = add_entry(old_view, k, a);
                assert(expected == old_view.push((k, seq![a])));
                assert(self@.len() == expected.len());
                assert forall|j: int| 0 <= j < self@.len() implies self@[j] == expected[j] by {
                    if j < old_view.len() {
                        assert(self.lists@[j] == old(self).lists@[j]);
                        assert(self.symbols@[j] == old(self).symbols@[j]);
                    }
                }
                assert(self@ =~= expected);
            },
        }
    }

    /// Drops every alert of the upper-case form of `symbol`; nothing happens
    /// when it has none.
    pub fn remove_alert(&mut self, symbol: &str)
        requires
            old(self).wf(),
        ensures
            final(self).wf(),
            final(self)@ == remove_entry(old(self)@, upper_of(symbol@)),
    {
        let key = uppercase(symbol);
        self.remove_alert_key(&key);
    }

    /// Drops every alert under `key` as it stands; nothing happens when it
    /// has none.
    pub fn remove_alert_key(&mut self, key: &String)
        requires
            old(self).wf(),
        ensures
            final(self).wf(),
            final(self)@ == remove_entry(old(self)@, key@),
    {
        match self.find(key) {
            Some(i) => {
                let ghost old_view = self@;
                self.symbols.remove(i);
                self.lists.remove(i);
                assert(key_index(old_view, key@) == Some(i as int));
                let ghost expected = remove_entry(old_view, key@);
                assert(self@.len() == expected.len());
                assert forall|j: int| 0 <= j < self@.len() implies self@[j] == expected[j] by {
                    if j < i as int {
                        assert(self.lists@[j] == old(self).lists@[j]);
                        assert(self.symbols@[j] == old(self).symbols@[j]);
                    } else {
                        assert(self.lists@[j] == old(self).lists@[j + 1]);
                        assert(self.symbols@[j] == old(self).symbols@[j + 1]);
                    }
                }
                assert(self@ =~= expected);
            },
            None => {},
        }
    }

    /// Whether the registry holds no alert.
    pub fn is_empty(&self) -> (r: bool)
        requires
            self.wf(),
        ensures
            r == (all_lines(self@).len() == 0),
    {
        proof { lemma_all_lines_empty(self@); }
        self.symbols.len() == 0
    }

    /// One line per alert, entry by entry and in insertion order, or the
    /// single line "No alerts set" when there is none.
    pub fn get_alerts(&self) -> (r: Vec<String>)
        requires
            self.wf(),
        ensures
            r@.map_values(|l: String| l@) == listing(self@),
    {
        let mut result: Vec<String> = Vec::new();
        let mut i: usize = 0;
        while i < self.symbols.len()
            invariant
                self.wf(),
                i <= self@.len(),
                result@.map_values(|l: String| l@) == all_lines(self@.take(i as int)),
            decreases self@.len() - i,
        {
            let symbol = &self.symbols[i];
            let list = &self.lists[i];
            let ghost before = result@.map_values(|l: String| l@);
            let mut j: usize = 0;
            while j < list.len()
                invariant
                    self.wf(),
                    i < self@.len(),
                    symbol@ == self@[i as int].0,
                    list@ == self@[i as int].1,
                    j <= list@.len(),
                    result@.map_values(|l: String| l@) == before + entry_lines(symbol@, list@.take(j as int)),
                decreases list@.len() - j,
            {
                let line = format_line(symbol, list[j]);
                let ghost prev = result@;
                result.push(line);
                assert(result@.map_values(|l: String| l@) =~= prev.map_values(|l: String| l@).push(line@));
                assert(list@.take(j as int + 1) =~= list@.take(j as int).push(list@[j as int]));
                assert(entry_lines(symbol@, list@.take(j as int + 1)) =~= entry_lines(symbol@, list@.take(j as int)).push(alert_line(symbol@, list@[j as int])));
                assert(result@.map_values(|l: String| l@) =~= before + entry_lines(symbol@, list@.take(j as int + 1)));
                j = j + 1;
            }
            assert(list@.take(j as int) =~= list@);
            assert(self@.take(i as int + 1).drop_last() =~= self@.take(i as int));
            i = i + 1;
        }
        assert(self@.take(i as int) =~= self@);
        if result.len() == 0 {
            proof { reveal_strlit("No alerts set"); }
            let none = String::from_str("No alerts set");
            assert(none@ =~= no_alerts_line());
            result.push(none);
            assert(result@.map_values(|l: String| l@) =~= seq![no_alerts_line()]);
            assert(all_lines(self@).len() == 0);
            assert(result@.map_values(|l: String| l@) =~= listing(self@));
        }
        result
    }

    /// The symbols to price in one pass: each entry's symbol once, in entry order.
    pub fn symbols(&self) -> (r: Vec<String>)
        requires
            self.wf(),
        ensures
            r@.map_values(|s: String| s@) == self@.map_values(|e: (Seq<char>, Seq<AlertData>)| e.0),
            forall|i: int, j: int| 0 <= i < r@.len() && 0 <= j < r@.len() && i != j ==> r@[i]@ != r@[j]@,
    {
        let mut r: Vec<String> = Vec::new();
        let mut i: usize = 0;
        while i < self.symbols.len()
            invariant
                self.wf(),
                i <= self@.len(),
                r@.map_values(|s: String| s@) == self@.take(i as int).map_values(|e: (Seq<char>, Seq<AlertData>)| e.0),
            decreases self@.len() - i,
        {
            let ghost prev = r@;
            let sym = self.symbols[i].clone();
            r.push(sym);
            assert(r@.map_values(|s: String| s@) =~= prev.map_values(|s: String| s@).push(self@[i as int].0));
            assert(self@.take(i as int + 1) =~= self@.take(i as int).push(self@[i as int]));
            assert(r@.map_values(|s: String| s@) =~= self@.take(i as int + 1).map_values(|e: (Seq<char>, Seq<AlertData>)| e.0));
            i = i + 1;
        }
        assert(self@.take(i as int) =~= self@);
        assert forall|x: int, y: int| 0 <= x < r@.len() && 0 <= y < r@.len() && x != y implies r@[x]@ != r@[y]@ by {
            assert(r@.map_values(|s: String| s@)[x] == r@[x]@);
            assert(r@.map_values(|s: String| s@)[y] == r@[y]@);
        }
        r
    }

    /// A point-in-time copy, so that a pass can run without holding the registry.
    pub fn snapshot(&self) -> (r: Self)
        requires
            self.wf(),
        ensures
            r.wf(),
            r@ == self@,
    {
        let mut symbols: Vec<String> = Vec::new();
        let mut lists: Vec<Vec<AlertData>> = Vec::new();
        let mut i: usize = 0;
        while i < self.symbols.len()
            invariant
                self.wf(),
                i <= self@.len(),
                symbols@.len() == i,
                lists@.len() == i,
                forall|j: int| 0 <= j < i ==> symbols@[j]@ == self@[j].0 && lists@[j]@ == self@[j].1,
            decreases self@.len() - i,
        {
            symbols.push(self.symbols[i].clone());
            let src = &self.lists[i];
            let mut copy: Vec<AlertData> = Vec::new();
            let mut j: usize = 0;
            while j < src.len()
                invariant
                    j <= src@.len(),
                    copy@ == src@.take(j as int),
                decreases src@.len() - j,
            {
                copy.push(src[j]);
                assert(src@.take(j as int + 1) =~= src@.take(j as int).push(src@[j as int]));
                j = j + 1;
            }
            assert(src@.take(j as int) =~= src@);
            lists.push(copy);
            i = i + 1;
        }
        let r = AlertMonitor { symbols, lists };
        assert(r@ =~= self@);
        r
    }

    /// Evaluates every alert against the price fetched for its symbol and
    /// returns the events of those that fire; a symbol whose fetch failed
    /// (`None`) is skipped and the others are still evaluated. Nothing is
    /// disarmed: the registry is only read.
    pub fn evaluate_tick(&self, prices: &Vec<Option<u64>>, now: i64) -> (r: Vec<TriggerEvent>)
        requires
            self.wf(),
            prices@.len() == self@.len(),
        ensures
            r@.map_values(|e: TriggerEvent| e@) == tick_events(self@, prices@, now),
    {
        let mut events: Vec<TriggerEvent> = Vec::new();
        let mut i: usize = 0;
        while i < self.symbols.len()
            invariant
                self.wf(),
                prices@.len() == self@.len(),
                i <= self@.len(),
                events@.map_values(|e: TriggerEvent| e@) == tick_events(self@.take(i as int), prices@, now),
            decreases self@.len() - i,
        {
            let ghost before = events@.map_values(|e: TriggerEvent| e@);
            assert(self@.take(i as int + 1).drop_last() =~= self@.take(i as int));
            match prices[i] {
                None => {
                    assert(events@.map_values(|e: TriggerEvent| e@) =~= tick_events(self@.take(i as int + 1), prices@, now));
                },
                Some(p) => {
                    let symbol = &self.symbols[i];
                    let list = &self.lists[i];
                    let mut j: usize = 0;
                    while j < list.len()
                        invariant
                            self.wf(),
                            i < self@.len(),
                            symbol@ == self@[i as int].0,
                            list@ == self@[i as int].1,
                            j <= list@.len(),
                            events@.map_values(|e: TriggerEvent| e@) == before + fired(symbol@, list@.take(j as int), p, now),
                        decreases list@.len() - j,
                    {
                        let a = list[j];
                        assert(list@.take(j as int + 1).drop_last() =~= list@.take(j as int));
                        let ghost prev = events@;
                        if should_trigger(a.condition, a.price, p) {
                            let e = TriggerEvent {
                                symbol: symbol.clone(),
                                threshold: a.price,
                                direction: a.condition,
                                observed_price: p,
                                fired_at: now,
                            };
                            events.push(e);
                            assert(events@.map_values(|e: TriggerEvent| e@) =~= prev.map_values(|e: TriggerEvent| e@).push(e@));
                        } else {
                            assert(events@.map_values(|e: TriggerEvent| e@) =~= prev.map_values(|e: TriggerEvent| e@) + seq![]);
                        }
                        assert(events@.map_values(|e: TriggerEvent| e@) =~= before + fired(symbol@, list@.take(j as int + 1), p, now));
                        j = j + 1;
                    }
                    assert(list@.take(j as int) =~= list@);
                    assert(events@.map_values(|e: TriggerEvent| e@) =~= tick_events(self@.take(i as int + 1), prices@, now));
                },
            }
            i = i + 1;
        }
        assert(self@.take(i as int) =~= self@);
        events
    }

}

proof fn lemma_all_lines_empty(e: Seq<(Seq<char>, Seq<AlertData>)>)
    requires
        forall|i: int| 0 <= i < e.len() ==> e[i].1.len() > 0,
    ensures
        (all_lines(e).len() == 0) == (e.len() == 0),
    decreases e.len(),
{
    if e.len() > 0 {
        lemma_all_lines_empty(e.drop_last());
    }
}

proof fn lemma_key_index_at(e: Seq<(Seq<char>, Seq<AlertData>)>, k: Seq<char>, i: int)
    requires
        0 <= i < e.len(),
        e[i].0 == k,
        forall|x: int, y: int| 0 <= x < e.len() && 0 <= y < e.len() && x != y ==> e[x].0 != e[y].0,
    ensures
        key_index(e, k) == Some(i),
{
}

proof fn lemma_all_lines_add(e: Seq<(Seq<char>, Seq<AlertData>)>, k: Seq<char>, a: AlertData)
    requires
        forall|x: int, y: int| 0 <= x < e.len() && 0 <= y < e.len() && x != y ==> e[x].0 != e[y].0,
    ensures
        all_lines(add_entry(e, k, a)).to_multiset() =~= all_lines(e).to_multiset().insert(alert_line(k, a)),
    decreases e.len(),
{
    broadcast use vstd::seq_lib::group_to_multiset_ensures;
    let line = alert_line(k, a);
    let n = add_entry(e, k, a);
    match key_index(e, k) {
        None => {
            assert(n.drop_last() =~= e);
            assert(entry_lines(k, seq![a]) =~= seq![line]);
            assert(all_lines(n) =~= all_lines(e).push(line));
        },
        Some(i) => {
            if i == e.len() - 1 {
                assert(n.drop_last() =~= e.drop_last());
                assert(entry_lines(k, e[i].1.push(a)) =~= entry_lines(k, e[i].1).push(line));
                assert(all_lines(n) =~= all_lines(e).push(line));
            } else {
                let d = e.drop_last();
                lemma_key_index_at(d, k, i);
                assert(n.drop_last() =~= add_entry(d, k, a));
                lemma_all_lines_add(d, k, a);
                let tail = entry_lines(e.last().0, e.last().1);
                vstd::seq_lib::lemma_multiset_commutative(all_lines(n.drop_last()), tail);
                vstd::seq_lib::lemma_multiset_commutative(all_lines(d), tail);
            }
        },
    }
}

/// After an alert is added, the listing holds exactly the lines it held
/// before plus one line for the new alert: the new alert appears once.
pub proof fn added_alert_listed_once(
    m: AlertMonitor,
    symbol: Seq<char>,
    price: u64,
    condition: Direction,
    created_at: i64,
)
    requires
        m.wf(),
    ensures
        listing(add_entry(m@, upper_of(symbol), AlertData { price, condition, timestamp: created_at })).to_multiset()
            =~= all_lines(m@).to_multiset().insert(
            alert_line(upper_of(symbol), AlertData { price, condition, timestamp: created_at }),
        ),
{
    broadcast use vstd::seq_lib::group_to_multiset_ensures;
    let a = AlertData { price, condition, timestamp: created_at };
    lemma_all_lines_add(m@, upper_of(symbol), a);
    let l = all_lines(add_entry(m@, upper_of(symbol), a));
    assert(l.to_multiset().len() > 0);
}

/// Removing a symbol leaves no entry, hence no alert, for it; removing it a
/// second time changes nothing.
pub proof fn remove_clears_and_is_idempotent(m: AlertMonitor, symbol: Seq<char>)
    requires
        m.wf(),
    ensures
        forall|i: int|
            0 <= i < remove_entry(m@, upper_of(symbol)).len()
                ==> remove_entry(m@, upper_of(symbol))[i].0 != upper_of(symbol),
        remove_entry(remove_entry(m@, upper_of(symbol)), upper_of(symbol)) == remove_entry(
            m@,
            upper_of(symbol),
        ),
{
    let k = upper_of(symbol);
    let r = remove_entry(m@, k);
    match key_index(m@, k) {
        Some(i) => {
            assert forall|j: int| 0 <= j < r.len() implies r[j].0 != k by {
                if j < i {
                    assert(r[j] == m@[j]);
                } else {
                    assert(r[j] == m@[j + 1]);
                }
            }
        },
        None => {},
    }
    assert(key_index(r, k) is None);
}

proof fn lemma_fired_contains(symbol: Seq<char>, alerts: Seq<AlertData>, price: u64, now: i64, k: int)
    requires
        0 <= k < alerts.len(),
        triggers(alerts[k].condition, alerts[k].price as nat, price as nat),
    ensures
        fired(symbol, alerts, price, now).contains(
            (symbol, alerts[k].price, alerts[k].condition, price, now),
        ),
    decreases alerts.len(),
{
    let x = (symbol, alerts[k].price, alerts[k].condition, price, now);
    let f = fired(symbol, alerts.drop_last(), price, now);
    if k == alerts.len() - 1 {
        let t = seq![x];
        assert((f + t)[f.len() as int] == x);
    } else {
        lemma_fired_contains(symbol, alerts.drop_last(), price, now, k);
        let j = choose|j: int| 0 <= j < f.len() && f[j] == x;
        assert(fired(symbol, alerts, price, now)[j] == x);
    }
}

proof fn lemma_tick_contains(
    e: Seq<(Seq<char>, Seq<AlertData>)>,
    prices: Seq<Option<u64>>,
    now: i64,
    i: int,
    x: (Seq<char>, u64, Direction, u64, i64),
)
    requires
        0 <= i < e.len(),
        e.len() <= prices.len(),
        symbol_events(e[i].0, e[i].1, prices[i], now).contains(x),
    ensures
        tick_events(e, prices, now).contains(x),
    decreases e.len(),
{
    let d = tick_events(e.drop_last(), prices, now);
    let t = symbol_events(e.last().0, e.last().1, prices[e.len() - 1], now);
    if i == e.len() - 1 {
        let j = choose|j: int| 0 <= j < t.len() && t[j] == x;
        assert((d + t)[d.len() + j] == x);
    } else {
        lemma_tick_contains(e.drop_last(), prices, now, i, x);
        let j = choose|j: int| 0 <= j < d.len() && d[j] == x;
        assert((d + t)[j] == x);
    }
}

/// In one pass, every alert of a symbol whose price was fetched and whose
/// condition holds at that price raises its event, whatever the fetches of
/// the other symbols gave, failures included.
pub proof fn priced_symbol_fires_despite_failures(
    m: AlertMonitor,
    prices: Seq<Option<u64>>,
    now: i64,
    i: int,
    k: int,
)
    requires
        m.wf(),
        prices.len() == m@.len(),
        0 <= i < m@.len(),
        0 <= k < m@[i].1.len(),
        prices[i] is Some,
        triggers(m@[i].1[k].condition, m@[i].1[k].price as nat, prices[i]->0 as nat),
    ensures
        tick_events(m@, prices, now).contains(
            (m@[i].0, m@[i].1[k].price, m@[i].1[k].condition, prices[i]->0, now),
        ),
{
    lemma_fired_contains(m@[i].0, m@[i].1, prices[i]->0, now, k);
    lemma_tick_contains(m@, prices, now, i, (m@[i].0, m@[i].1[k].price, m@[i].1[k].condition, prices[i]->0, now));
}

/// A pass only reads the registry, so an alert that fired on one pass and
/// whose condition still holds on the next fires again: nothing disarms it.
pub proof fn fired_alert_fires_again(
    m: AlertMonitor,
    first: Seq<Option<u64>>,
    second: Seq<Option<u64>>,
    now1: i64,
    now2: i64,
    i: int,
    k: int,
)
    requires
        m.wf(),
        first.len() == m@.len(),
        second.len() == m@.len(),
        0 <= i < m@.len(),
        0 <= k < m@[i].1.len(),
        first[i] is Some,
        second[i] is Some,
        triggers(m@[i].1[k].condition, m@[i].1[k].price as nat, first[i]->0 as nat),
        triggers(m@[i].1[k].condition, m@[i].1[k].price as nat, second[i]->0 as nat),
    ensures
        tick_events(m@, first, now1).contains(
            (m@[i].0, m@[i].1[k].price, m@[i].1[k].condition, first[i]->0, now1),
        ),
        tick_events(m@, second, now2).contains(
            (m@[i].0, m@[i].1[k].price, m@[i].1[k].condition, second[i]->0, now2),
        ),
{
    priced_symbol_fires_despite_failures(m, first, now1, i, k);
    priced_symbol_fires_despite_failures(m, second, now2, i, k);
}

} // verus!
