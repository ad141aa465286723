//! Alert severities and operators, the options of alert reporting, and the
//! suppression of alerts for a session or for a while.

use vstd::prelude::*;
use crate::clock::now_millis;
use crate::keyed::KeyedList;
use crate::text::owned;

verus! {

/// How severe an alert is, from least to most.
#[derive(Debug, Clone, Copy, PartialEq, Eq, Hash, PartialOrd, Ord)]
pub enum AlertSeverity {
    /// For information.
    Info,
    /// A warning.
    Warning,
    /// An error.
    Error,
    /// A critical condition.
    Critical,
}

/// The label of a severity.
pub open spec fn severity_label(s: AlertSeverity) -> Seq<char> {
    match s {
        AlertSeverity::Info => "INFO"@,
        AlertSeverity::Warning => "WARNING"@,
        AlertSeverity::Error => "ERROR"@,
        AlertSeverity::Critical => "CRITICAL"@,
    }
}

impl AlertSeverity {
    /// The severity's label.
    pub fn to_string(&self) -> (r: String)
        ensures
            r@ == severity_label(*self),
    {
        match self {
            AlertSeverity::Info => owned("INFO"),
            AlertSeverity::Warning => owned("WARNING"),
            AlertSeverity::Error => owned("ERROR"),
            AlertSeverity::Critical => owned("CRITICAL"),
        }
    }
}

/// How a metric is compared with an alert's threshold.
#[derive(Debug, Clone, Copy, PartialEq, Eq)]
pub enum AlertOperator {
    /// `>`
    GreaterThan,
    /// `<`
    LessThan,
    /// `>=`
    GreaterThanOrEqual,
    /// `<=`
    LessThanOrEqual,
    /// `==`
    Equal,
}

/// The symbol of an operator.
pub open spec fn operator_symbol(o: AlertOperator) -> Seq<char> {
    match o {
        AlertOperator::GreaterThan => ">"@,
        AlertOperator::LessThan => "<"@,
        AlertOperator::GreaterThanOrEqual => ">="@,
        AlertOperator::LessThanOrEqual => "<="@,
        AlertOperator::Equal => "=="@,
    }
}

impl AlertOperator {
    /// The operator's symbol.
    pub fn to_string(&self) -> (r: String)
        ensures
            r@ == operator_symbol(*self),
    {
        match self {
            AlertOperator::GreaterThan => owned(">"),
            AlertOperator::LessThan => owned("<"),
            AlertOperator::GreaterThanOrEqual => owned(">="),
            AlertOperator::LessThanOrEqual => owned("<="),
            AlertOperator::Equal => owned("=="),
        }
    }
}

/// How alerts are shown on a terminal.
#[derive(Debug, Clone, Copy, PartialEq, Eq)]
pub struct TerminalAlertOptions {
    /// Show when each alert fired.
    pub show_timestamps: bool,
    /// Colour alerts by severity.
    pub use_colors: bool,
    /// Show acknowledged alerts too.
    pub show_acknowledged: bool,
    /// Show no alert more severe than this.
    pub max_severity: Option<AlertSeverity>,
}

impl Default for TerminalAlertOptions {
    /// Timestamps and colours, acknowledged alerts hidden, every severity.
    fn default() -> (r: Self)
        ensures
            r == (TerminalAlertOptions { show_timestamps: true, use_colors: true, show_acknowledged: false, max_severity: None }),
    {
        TerminalAlertOptions { show_timestamps: true, use_colors: true, show_acknowledged: false, max_severity: None }
    }
}

/// The configuration of alerting.
#[derive(Debug, Clone, Copy, PartialEq, Eq)]
pub struct AlertingConfig {
    /// Alerts are raised at all.
    pub enabled: bool,
    /// Alerts are shown on the terminal.
    pub terminal_reporting: bool,
    /// How they are shown there.
    pub terminal_options: TerminalAlertOptions,
    /// The time an alert stays quiet after firing, in milliseconds.
    pub default_cooldown: u64,
}

impl Default for AlertingConfig {
    /// Enabled, shown on the terminal with the default options, five minutes
    /// of quiet.
    fn default() -> (r: Self)
        ensures
            r.enabled && r.terminal_reporting,
            r.terminal_options == (TerminalAlertOptions { show_timestamps: true, use_colors: true, show_acknowledged: false, max_severity: None }),
            r.default_cooldown == 300000,
    {
        AlertingConfig {
            enabled: true,
            terminal_reporting: true,
            terminal_options: TerminalAlertOptions::default(),
            default_cooldown: 300000,
        }
    }
}

/// When a suppression of `duration` milliseconds from `now` ends; the sum
/// saturates at the largest time.
pub open spec fn suppression_end(now: u64, duration: u64) -> u64 {
    if now + duration > u64::MAX { u64::MAX } else { (now + duration) as u64 }
}

/// Whether `id` is suppressed at time `now`: for the session, or until a
/// later time.
pub open spec fn suppressed_at(s: SessionSuppression, id: Seq<char>, now: u64) -> bool {
    s.for_session(id) || (s.until(id) matches Some(e) && e > now)
}

/// `after` keeps of the temporary suppressions of `before` those that end
/// after `now`.
pub open spec fn cleaned_at(before: SessionSuppression, after: SessionSuppression, now: u64) -> bool {
    forall|id: Seq<char>| after.until(id) == match before.until(id) {
        Some(e) => if e > now { Some(e) } else { None },
        None => None,
    }
}

/// No alert is suppressed, for the session or for a while.
pub open spec fn nothing_suppressed(s: SessionSuppression) -> bool {
    forall|id: Seq<char>| !s.for_session(id) && s.until(id) is None
}

/// After a reset no alert is suppressed at any time until the next
/// suppression, and a second reset leaves the suppressions as the first did.
pub proof fn lemma_reset_twice(once: SessionSuppression, twice: SessionSuppression, id: Seq<char>, now: u64)
    requires
        nothing_suppressed(once),
        nothing_suppressed(twice),
    ensures
        !suppressed_at(once, id, now),
        forall|k: Seq<char>| twice.for_session(k) == once.for_session(k) && twice.until(k) == once.until(k),
{
    assert(!once.for_session(id) && once.until(id) is None);
}

/// Milliseconds since the Unix epoch by the clock, 0 before it.
fn clock_ms() -> (r: u64)
    ensures
        r <= i64::MAX,
{
    let t = now_millis();
    if t < 0 { 0 } else { t as u64 }
}

/// Alerts suppressed for the rest of the session, and alerts suppressed until
/// a time.
#[derive(Debug)]
pub struct SessionSuppression {
    /// The alerts suppressed for the session.
    pub session_suppressed: KeyedList<()>,
    /// The alerts suppressed for a while, each with the time the suppression
    /// ends, in milliseconds since the Unix epoch.
    pub temp_suppressed: KeyedList<u64>,
}

impl SessionSuppression {
    /// The alert `id` is suppressed for the session.
    pub open spec fn for_session(&self, id: Seq<char>) -> bool {
        self.session_suppressed.spec_get(id) is Some
    }

    /// The time the temporary suppression of `id` ends.
    pub open spec fn until(&self, id: Seq<char>) -> Option<u64> {
        self.temp_suppressed.spec_get(id)
    }

    /// Nothing suppressed.
    pub fn new() -> (r: SessionSuppression)
        ensures
            forall|id: Seq<char>| !r.for_session(id) && r.until(id) is None,
    {
        SessionSuppression { session_suppressed: KeyedList::new(), temp_suppressed: KeyedList::new() }
    }

    /// Suppresses `alert_id` for the session, ending any temporary suppression.
    pub fn suppress_for_session(&mut self, alert_id: &str)
        ensures
            final(self).for_session(alert_id@),
            final(self).until(alert_id@) is None,
            forall|id: Seq<char>| id != alert_id@ ==> final(self).for_session(id) == old(self).for_session(id)
                && final(self).until(id) == old(self).until(id),
    {
        let _ = self.session_suppressed.insert(owned(alert_id), ());
        let _ = self.temp_suppressed.remove(alert_id);
    }

    /// Suppresses `alert_id` from `now` for `duration` milliseconds (the end
    /// saturating at the largest time).
    pub fn suppress_temporarily_at(&mut self, alert_id: &str, duration: u64, now: u64)
        ensures
            final(self).until(alert_id@) == Some(if now + duration > u64::MAX { u64::MAX } else { (now + duration) as u64 }),
            forall|id: Seq<char>| final(self).for_session(id) == old(self).for_session(id),
            forall|id: Seq<char>| id != alert_id@ ==> final(self).until(id) == old(self).until(id),
    {
        let _ = self.temp_suppressed.insert(owned(alert_id), now.saturating_add(duration));
    }

    /// Suppresses `alert_id` for `duration` milliseconds from now by the clock.
    pub fn suppress_temporarily(&mut self, alert_id: &str, duration: u64)
        ensures
            exists|now: u64| final(self).until(alert_id@) == Some(#[trigger] suppression_end(now, duration)),
            final(self).until(alert_id@) is Some,
            forall|id: Seq<char>| final(self).for_session(id) == old(self).for_session(id),
            forall|id: Seq<char>| id != alert_id@ ==> final(self).until(id) == old(self).until(id),
    {
        let now = clock_ms();
        self.suppress_temporarily_at(alert_id, duration, now);
        assert(self.until(alert_id@) == Some(suppression_end(now, duration)));
    }

    /// Forgets the temporary suppressions that have ended by `now`.
    pub fn clean_expired_suppressions_at(&mut self, now: u64)
        ensures
            forall|id: Seq<char>| final(self).until(id) == match old(self).until(id) {
                Some(e) => if e > now { Some(e) } else { None },
                None => None,
            },
            forall|id: Seq<char>| final(self).for_session(id) == old(self).for_session(id),
    {
        let mut kept: KeyedList<u64> = KeyedList::new();
        let n = self.temp_suppressed.len();
        let mut i: usize = 0;
        while i < n
            invariant
                i <= n,
                n == self.temp_suppressed.entries().len(),
                forall|id: Seq<char>| #[trigger] kept.spec_get(id) == if (exists|j: int| 0 <= j < i && self.temp_suppressed.entries()[j].0@ == id) {
                    match self.temp_suppressed.spec_get(id) {
                        Some(e) => if e > now { Some(e) } else { None },
                        None => None,
                    }
                } else {
                    None
                },
            decreases n - i,
        {
            let (k, e) = self.temp_suppressed.entry_at(i);
            let ghost key = k@;
            if *e > now {
                let _ = kept.insert(k.clone(), *e);
            }
            proof {
                assert forall|id: Seq<char>| #[trigger] kept.spec_get(id) == if (exists|j: int| 0 <= j < i + 1 && self.temp_suppressed.entries()[j].0@ == id) {
                    match self.temp_suppressed.spec_get(id) {
                        Some(x) => if x > now { Some(x) } else { None },
                        None => None,
                    }
                } else {
                    None
                } by {
                    if id == key {
                        assert(self.temp_suppressed.entries()[i as int].0@ == id);
                    } else {
                        if exists|j: int| 0 <= j < i + 1 && self.temp_suppressed.entries()[j].0@ == id {
                            let j = choose|j: int| 0 <= j < i + 1 && self.temp_suppressed.entries()[j].0@ == id;
                            assert(j != i);
                        }
                    }
                }
            }
            i = i + 1;
        }
        proof {
            assert forall|id: Seq<char>| #[trigger] kept.spec_get(id) == match self.temp_suppressed.spec_get(id) {
                Some(e) => if e > now { Some(e) } else { None },
                None => None,
            } by {
                if self.temp_suppressed.spec_get(id) is Some {
                    let j = choose|j: int| 0 <= j < self.temp_suppressed.entries().len() && self.temp_suppressed.entries()[j].0@ == id;
                    assert(0 <= j < n as int && self.temp_suppressed.entries()[j].0@ == id);
                }
            }
        }
        self.temp_suppressed = kept;
    }

    /// Whether `alert_id` is suppressed at `now`, after forgetting the
    /// temporary suppressions that have ended.
    pub fn is_suppressed_at(&mut self, alert_id: &str, now: u64) -> (r: bool)
        ensures
            r == (old(self).for_session(alert_id@) || (old(self).until(alert_id@) matches Some(e) && e > now)),
            forall|id: Seq<char>| final(self).until(id) == match old(self).until(id) {
                Some(e) => if e > now { Some(e) } else { None },
                None => None,
            },
            forall|id: Seq<char>| final(self).for_session(id) == old(self).for_session(id),
    {
        self.clean_expired_suppressions_at(now);
        let a = self.session_suppressed.contains_key(alert_id);
        let b = self.temp_suppressed.contains_key(alert_id);
        assert(self.until(alert_id@) == match old(self).until(alert_id@) {
            Some(e) => if e > now { Some(e) } else { None },
            None => None,
        });
        assert(self.for_session(alert_id@) == old(self).for_session(alert_id@));
        a || b
    }

    /// Whether `alert_id` is suppressed now, by the clock.
    pub fn is_suppressed(&mut self, alert_id: &str) -> (r: bool)
        ensures
            exists|now: u64| r == #[trigger] suppressed_at(*old(self), alert_id@, now) && cleaned_at(*old(self), *final(self), now),
            forall|id: Seq<char>| final(self).for_session(id) == old(self).for_session(id),
            old(self).for_session(alert_id@) ==> r,
            old(self).until(alert_id@) is None && !old(self).for_session(alert_id@) ==> !r,
    {
        let now = clock_ms();
        let r = self.is_suppressed_at(alert_id, now);
        assert(r == suppressed_at(*old(self), alert_id@, now) && cleaned_at(*old(self), *self, now));
        r
    }

    /// Ends every suppression.
    pub fn reset(&mut self)
        ensures
            nothing_suppressed(*final(self)),
            forall|id: Seq<char>| !final(self).for_session(id) && final(self).until(id) is None,
    {
        self.session_suppressed = KeyedList::new();
        self.temp_suppressed = KeyedList::new();
    }
}

impl Default for SessionSuppression {
    fn default() -> (r: Self)
        ensures
            forall|id: Seq<char>| !r.for_session(id) && r.until(id) is None,
    {
        SessionSuppression::new()
    }
}


/// An alert raised from a definition: which definition, when (in
/// milliseconds of a monotonic clock), for how long it stays active, whether
/// and when it was acknowledged, and what else its raiser keeps with it.
#[derive(Debug, Clone)]
pub struct RaisedAlert<A> {
    /// The identifier of the definition that raised it.
    pub definition_id: String,
    /// When it was raised.
    pub triggered_at: u64,
    /// How long after that it stays active, in milliseconds.
    pub cooldown: u64,
    /// It has been acknowledged.
    pub acknowledged: bool,
    /// When it was acknowledged.
    pub acknowledged_at: Option<u64>,
    /// The rest of what describes it.
    pub details: A,
}

/// The cool-down of `a` has passed by `now`.
pub open spec fn alert_expired<A>(a: RaisedAlert<A>, now: u64) -> bool {
    now > a.triggered_at + a.cooldown
}

/// `a` after acknowledging the alerts of definition `id` at `now`: marked
/// when it is one of them and not yet acknowledged.
pub open spec fn acknowledged_by<A>(a: RaisedAlert<A>, id: Seq<char>, now: u64) -> RaisedAlert<A> {
    if a.definition_id@ == id && !a.acknowledged {
        RaisedAlert { acknowledged: true, acknowledged_at: Some(now), ..a }
    } else {
        a
    }
}

/// Some alert of `alerts` comes from definition `id` and awaits acknowledgement.
pub open spec fn awaits_acknowledgement<A>(alerts: Seq<RaisedAlert<A>>, id: Seq<char>) -> bool {
    exists|i: int| 0 <= i < alerts.len() && (#[trigger] alerts[i]).definition_id@ == id && !alerts[i].acknowledged
}

/// How many alerts the history keeps.
pub const HISTORY_LIMIT: usize = 1000;

/// `after` is `before` with an alert of definition `id` raised at `now`,
/// active for `cooldown` milliseconds, carrying a clone of `details`: it
/// joins the active alerts and the history, which drops its oldest alert when
/// it would hold more than its limit.
pub open spec fn raised<D, A: Clone>(before: AlertBook<D, A>, after: AlertBook<D, A>, id: Seq<char>, cooldown: u64, now: u64, details: A) -> bool {
    &&& ({
        let fresh = RaisedAlert { definition_id: after.history().last().definition_id,
            triggered_at: now, cooldown, acknowledged: false, acknowledged_at: None, details };
        &&& fresh.definition_id@ == id
        &&& after.history() == if before.history().len() >= HISTORY_LIMIT {
                before.history().drop_first().push(fresh)
            } else {
                before.history().push(fresh)
            }
    })
    &&& (before.history().len() <= HISTORY_LIMIT ==> after.history().len() <= HISTORY_LIMIT)
    &&& after.active().len() == before.active().len() + 1
    &&& after.active().drop_last() == before.active()
    &&& after.active().last().definition_id@ == id
    &&& after.active().last().triggered_at == now
    &&& after.active().last().cooldown == cooldown
    &&& !after.active().last().acknowledged && after.active().last().acknowledged_at is None
    &&& cloned::<A>(details, after.active().last().details)
    &&& after.definition_entries() == before.definition_entries()
}

/// The alert definitions by identifier, the alerts active now, and the
/// latest raised alerts.
#[derive(Debug)]
pub struct AlertBook<D, A> {
    definitions: KeyedList<D>,
    active: Vec<RaisedAlert<A>>,
    history: Vec<RaisedAlert<A>>,
}

impl<D, A> AlertBook<D, A> {
    /// The definitions, in order of first registration.
    pub closed spec fn definition_entries(&self) -> Seq<(String, D)> {
        self.definitions.entries()
    }

    /// The definition registered under `id`.
    pub closed spec fn definition(&self, id: Seq<char>) -> Option<D> {
        self.definitions.spec_get(id)
    }

    /// The active alerts, in the order raised.
    pub closed spec fn active(&self) -> Seq<RaisedAlert<A>> {
        self.active@
    }

    /// The latest raised alerts, oldest first.
    pub closed spec fn history(&self) -> Seq<RaisedAlert<A>> {
        self.history@
    }

    /// A book without definitions or alerts.
    pub fn new() -> (r: AlertBook<D, A>)
        ensures
            r.definition_entries().len() == 0,
            forall|id: Seq<char>| r.definition(id) is None,
            r.active().len() == 0,
            r.history().len() == 0,
    {
        AlertBook { definitions: KeyedList::new(), active: Vec::new(), history: Vec::new() }
    }

    /// Registers `definition` under `id`, in place of one registered there.
    pub fn add_definition(&mut self, id: String, definition: D)
        ensures
            final(self).definition_entries() == crate::keyed::insert_entry(old(self).definition_entries(), id, definition),
            final(self).definition(id@) == Some(definition),
            forall|k: Seq<char>| k != id@ ==> final(self).definition(k) == old(self).definition(k),
            final(self).active() == old(self).active(),
            final(self).history() == old(self).history(),
    {
        let _ = self.definitions.insert(id, definition);
    }

    /// Removes the definition `id`; whether there was one.
    pub fn remove_definition(&mut self, id: &str) -> (r: bool)
        ensures
            r == old(self).definition(id@) is Some,
            final(self).definition(id@) is None,
            forall|k: Seq<char>| k != id@ ==> final(self).definition(k) == old(self).definition(k),
            final(self).active() == old(self).active(),
            final(self).history() == old(self).history(),
    {
        self.definitions.remove(id).is_some()
    }

    /// The number of definitions.
    pub fn definition_count(&self) -> (r: usize)
        ensures
            r == self.definition_entries().len(),
    {
        self.definitions.len()
    }

    /// The definition at position `i`, with its identifier.
    pub fn definition_at(&self, i: usize) -> (r: (&String, &D))
        requires
            i < self.definition_entries().len(),
        ensures
            *r.0 == self.definition_entries()[i as int].0,
            *r.1 == self.definition_entries()[i as int].1,
    {
        self.definitions.entry_at(i)
    }

    /// Whether an alert of definition `id` is active.
    pub fn is_active(&self, id: &str) -> (r: bool)
        ensures
            r == exists|i: int| 0 <= i < self.active().len() && (#[trigger] self.active()[i]).definition_id@ == id@,
    {
        let mut i: usize = 0;
        while i < self.active.len()
            invariant
                i <= self.active@.len(),
                forall|j: int| 0 <= j < i ==> (#[trigger] self.active@[j]).definition_id@ != id@,
            decreases self.active.len() - i,
        {
            if crate::text::str_eq(self.active[i].definition_id.as_str(), id) {
                return true;
            }
            i = i + 1;
        }
        false
    }

    /// Raises an alert of definition `id` at `now`, active for `cooldown`
    /// milliseconds: it joins the active alerts and the history, which drops
    /// its oldest alert when it would hold more than its limit.
    pub fn raise(&mut self, id: &str, cooldown: u64, now: u64, details: A)
        where A: Clone,
        ensures
            raised(*old(self), *final(self), id@, cooldown, now, details),
            final(self).history().last().definition_id@ == id@,
            final(self).active().last().definition_id@ == id@,
    {
        let ghost d = details;
        let copy = details.clone();
        self.active.push(RaisedAlert {
            definition_id: crate::text::owned(id),
            triggered_at: now,
            cooldown,
            acknowledged: false,
            acknowledged_at: None,
            details: copy,
        });
        let ghost old_history = self.history@;
        let mut history: Vec<RaisedAlert<A>> = Vec::new();
        std::mem::swap(&mut history, &mut self.history);
        history.push(RaisedAlert {
            definition_id: crate::text::owned(id),
            triggered_at: now,
            cooldown,
            acknowledged: false,
            acknowledged_at: None,
            details,
        });
        if history.len() > HISTORY_LIMIT {
            let _ = history.remove(0);
            assert(history@ =~= old_history.drop_first().push(history@.last()));
        }
        self.history = history;
        assert(self.active@.drop_last() =~= old(self).active@);
        assert(raised(*old(self), *self, id@, cooldown, now, d));
    }

    /// Considers one definition, `id`, at `now`: an alert of it is raised,
    /// active for `cooldown` milliseconds and carrying `details`, when the
    /// definition is enabled, its alert not suppressed, its metric crosses the
    /// threshold (`triggered`), and no alert of it is active already.
    /// Whether one was raised.
    pub fn consider(&mut self, id: &str, enabled: bool, suppressed: bool, triggered: bool, cooldown: u64, now: u64, details: A) -> (r: bool)
        where A: Clone,
        ensures
            r == (enabled && !suppressed && triggered
                && !exists|i: int| 0 <= i < old(self).active().len() && (#[trigger] old(self).active()[i]).definition_id@ == id@),
            r ==> raised(*old(self), *final(self), id@, cooldown, now, details),
            !r ==> *final(self) == *old(self),
    {
        if !enabled || suppressed || !triggered || self.is_active(id) {
            return false;
        }
        self.raise(id, cooldown, now, details);
        true
    }

    /// Forgets the active alerts whose cool-down has passed by `now`.
    pub fn drop_expired(&mut self, now: u64)
        ensures
            final(self).active() == old(self).active().filter(|a: RaisedAlert<A>| !alert_expired(a, now)),
            final(self).history() == old(self).history(),
            final(self).definition_entries() == old(self).definition_entries(),
    {
        let ghost all = self.active@;
        let mut rest: Vec<RaisedAlert<A>> = Vec::new();
        std::mem::swap(&mut rest, &mut self.active);
        let n = rest.len();
        let mut k: usize = 0;
        assert(all.subrange(0, 0) =~= Seq::<RaisedAlert<A>>::empty());
        while k < n
            invariant
                k <= n,
                n == all.len(),
                rest@ == all.subrange(k as int, n as int),
                self.active@ == all.subrange(0, k as int).filter(|a: RaisedAlert<A>| !alert_expired(a, now)),
                self.history() == old(self).history(),
                self.definition_entries() == old(self).definition_entries(),
            decreases n - k,
        {
            let a = rest.remove(0);
            proof {
                assert(all.subrange(0, k + 1).drop_last() =~= all.subrange(0, k as int));
                reveal(Seq::filter);
            }
            if !(now as u128 > a.triggered_at as u128 + a.cooldown as u128) {
                self.active.push(a);
            }
            k = k + 1;
            assert(rest@ =~= all.subrange(k as int, n as int));
        }
        assert(all.subrange(0, n as int) =~= all);
    }

    /// Acknowledges the alerts of definition `id` at `now`, in the active
    /// alerts and, when one was active, in the history; whether one was.
    pub fn acknowledge(&mut self, id: &str, now: u64) -> (r: bool)
        ensures
            r == awaits_acknowledgement(old(self).active(), id@),
            final(self).active() == old(self).active().map_values(|a: RaisedAlert<A>| acknowledged_by(a, id@, now)),
            final(self).history() == if r {
                old(self).history().map_values(|a: RaisedAlert<A>| acknowledged_by(a, id@, now))
            } else {
                old(self).history()
            },
            final(self).definition_entries() == old(self).definition_entries(),
    {
        let r = acknowledge_all(&mut self.active, id, now);
        if r {
            let _ = acknowledge_all(&mut self.history, id, now);
        }
        r
    }

    /// The active alerts.
    pub fn active_alerts(&self) -> (r: &Vec<RaisedAlert<A>>)
        ensures
            r@ == self.active(),
    {
        &self.active
    }

    /// The latest raised alerts, oldest first.
    pub fn alert_history(&self) -> (r: &Vec<RaisedAlert<A>>)
        ensures
            r@ == self.history(),
    {
        &self.history
    }
}

/// Marks the alerts of definition `id` not yet acknowledged as acknowledged
/// at `now`; whether there was one.
fn acknowledge_all<A>(alerts: &mut Vec<RaisedAlert<A>>, id: &str, now: u64) -> (r: bool)
    ensures
        r == awaits_acknowledgement(old(alerts)@, id@),
        final(alerts)@ == old(alerts)@.map_values(|a: RaisedAlert<A>| acknowledged_by(a, id@, now)),
{
    let ghost all = alerts@;
    let mut found = false;
    let mut i: usize = 0;
    while i < alerts.len()
        invariant
            i <= alerts@.len(),
            alerts@.len() == all.len(),
            forall|j: int| 0 <= j < i ==> alerts@[j] == acknowledged_by(all[j], id@, now),
            forall|j: int| i <= j < all.len() ==> alerts@[j] == all[j],
            found == exists|j: int| 0 <= j < i && (#[trigger] all[j]).definition_id@ == id@ && !all[j].acknowledged,
        decreases alerts.len() - i,
    {
        if crate::text::str_eq(alerts[i].definition_id.as_str(), id) && !alerts[i].acknowledged {
            let mut a = alerts.remove(i);
            a.acknowledged = true;
            a.acknowledged_at = Some(now);
            alerts.insert(i, a);
            found = true;
        }
        i = i + 1;
    }
    assert(alerts@ =~= all.map_values(|a: RaisedAlert<A>| acknowledged_by(a, id@, now)));
    found
}

} // verus!
