//! Fan-out delivery: required senders first, then best-effort senders whose
//! failures never block delivery and are spooled when a spooler is set.
use vstd::prelude::*;
use crate::alert::Alert;
use crate::event_contracts::{
    DeliveryAttemptRecord, DeliveryAttemptStatus, SenderStatusRecord,
    EVENT_CONTRACT_SCHEMA_VERSION,
};
use crate::event_emitter::{EmittedRecord, EventEmitter};
use crate::spool::{spool_record_for, unix_timestamp_secs, SpoolRecord, Spooler};

verus! {

/// One call of `Sender::send_alert` and what it returned.
pub struct SendAttempt {
    pub alert: Alert,
    pub channel: u32,
    pub result: Result<(), String>,
}

/// A delivery path for alerts.
///
/// `spec_name` is the sender's name, `send_attempts` the sequence of all
/// calls of `send_alert` so far with their results, and `readiness(r)` says
/// that `r` is an outcome that a readiness check can give.
///
/// The bodies given to these ghost views are only defaults for
/// implementations that keep no such history: nothing verified relies on them.
pub trait Sender {
    closed spec fn spec_name(&self) -> Seq<char> {
        Seq::empty()
    }

    closed spec fn send_attempts(&self) -> Seq<SendAttempt> {
        Seq::empty()
    }

    fn name(&self) -> (n: &'static str)
        ensures
            n@ == self.spec_name(),
    ;

    closed spec fn readiness(&self, r: Result<(), String>) -> bool {
        true
    }

    fn check_ready(&self) -> (r: Result<(), String>)
        ensures
            self.readiness(r),
    ;

    fn send_alert(&mut self, alert: &Alert, channel: u32) -> (r: Result<(), String>)
        ensures
            final(self).spec_name() == old(self).spec_name(),
            final(self).send_attempts() == old(self).send_attempts().push(
                SendAttempt { alert: *alert, channel, result: r },
            ),
    ;
}

/// `post` is the attempt log `pre` after exactly one more call of
/// `send_alert(alert, channel)`.
pub open spec fn sent_once(pre: Seq<SendAttempt>, post: Seq<SendAttempt>, alert: Alert, channel: u32) -> bool {
    &&& post.len() == pre.len() + 1
    &&& post.drop_last() == pre
    &&& post.last().alert == alert
    &&& post.last().channel == channel
}

/// What the last call of `send_alert` on `s` returned.
pub open spec fn last_result(log: Seq<SendAttempt>) -> Result<(), String> {
    log.last().result
}

/// The names and errors of the senders in `s` whose last send failed, in
/// order.
pub open spec fn failed_sends(s: Seq<Box<dyn Sender>>) -> Seq<(Seq<char>, String)>
    decreases s.len(),
{
    if s.len() == 0 {
        seq![]
    } else {
        failed_sends(s.drop_last()) + match last_result(s.last().send_attempts()) {
            Ok(_) => seq![],
            Err(e) => seq![(s.last().spec_name(), e)],
        }
    }
}

/// `records` are the spool records of the failures `failures` of delivering
/// `alert` on `channel`.
pub open spec fn spooled_for(
    records: Seq<SpoolRecord>,
    failures: Seq<(Seq<char>, String)>,
    alert: Alert,
    channel: u32,
) -> bool {
    &&& records.len() == failures.len()
    &&& forall|m: int|
        0 <= m < records.len() ==> spool_record_for(
            #[trigger] records[m],
            failures[m].0,
            alert,
            channel,
            failures[m].1@,
        )
}

/// `rec` is the delivery attempt record of a send by `sender` that returned
/// `result`.
pub open spec fn delivery_record_for(
    rec: EmittedRecord,
    alert_id: Seq<char>,
    sender: Seq<char>,
    required: bool,
    channel: u32,
    result: Result<(), String>,
) -> bool {
    &&& rec matches EmittedRecord::DeliveryAttempt(d)
    &&& d.schema_version == EVENT_CONTRACT_SCHEMA_VERSION
    &&& d.record_type@ == "delivery_attempt"@
    &&& d.alert_id@ == alert_id
    &&& d.sender@ == sender
    &&& d.required == required
    &&& d.channel == Some(channel)
    &&& d.status == (if result is Ok {
        DeliveryAttemptStatus::Success
    } else {
        DeliveryAttemptStatus::Failure
    })
    &&& d.error == (match result {
        Ok(_) => None,
        Err(e) => Some(e),
    })
}

/// `rec` is the status record of a readiness check of `sender`.
pub open spec fn status_record_for(
    rec: EmittedRecord,
    sender: Seq<char>,
    required: bool,
    ready: bool,
    error: Option<String>,
) -> bool {
    &&& rec matches EmittedRecord::SenderStatus(s)
    &&& s.schema_version == EVENT_CONTRACT_SCHEMA_VERSION
    &&& s.record_type@ == "sender_status"@
    &&& s.sender@ == sender
    &&& s.configured
    &&& s.required == required
    &&& s.ready == ready
    &&& s.last_success_unix_secs == (if ready {
        Some(s.timestamp_unix_secs)
    } else {
        None::<u64>
    })
    &&& s.last_failure_unix_secs == (if ready {
        None::<u64>
    } else {
        Some(s.timestamp_unix_secs)
    })
    &&& s.error == error
}

/// What a readiness check of the fan-out with required senders `req`
/// returned: `Ok` when every required sender's check said ready; else the
/// error of the first required sender whose check failed, all before it
/// having said ready. A fan-out without required senders is always ready.
pub open spec fn ready_outcome_of(req: Seq<Box<dyn Sender>>, r: Result<(), String>) -> bool {
    match r {
        Ok(_) => forall|k: int| 0 <= k < req.len() ==> #[trigger] req[k].readiness(Ok(())),
        Err(e) => exists|m: int|
            0 <= m < req.len() && (forall|k: int| 0 <= k < m ==> #[trigger] req[k].readiness(Ok(())))
                && #[trigger] req[m].readiness(Err(e)),
    }
}

/// Required senders, best-effort senders and an optional spooler for
/// best-effort failures.
pub struct FanOut {
    required_senders: Vec<Box<dyn Sender>>,
    best_effort_senders: Vec<Box<dyn Sender>>,
    spooler: Option<Box<dyn Spooler>>,
}

impl FanOut {
    /// The required senders.
    pub closed spec fn required(&self) -> Seq<Box<dyn Sender>> {
        self.required_senders@
    }

    /// The best-effort senders.
    pub closed spec fn best_effort(&self) -> Seq<Box<dyn Sender>> {
        self.best_effort_senders@
    }

    /// The spooler for best-effort failures, if any.
    pub closed spec fn spooler_view(&self) -> Option<Box<dyn Spooler>> {
        self.spooler
    }

    /// A fan-out with only required senders and no spooler.
    pub fn new(required_senders: Vec<Box<dyn Sender>>) -> (f: Self)
        ensures
            f.required() == required_senders@,
            f.best_effort().len() == 0,
            f.spooler_view() is None,
    {
        Self { required_senders, best_effort_senders: Vec::new(), spooler: None }
    }

    /// A fan-out with required and best-effort senders and no spooler.
    pub fn with_best_effort(
        required_senders: Vec<Box<dyn Sender>>,
        best_effort_senders: Vec<Box<dyn Sender>>,
    ) -> (f: Self)
        ensures
            f.required() == required_senders@,
            f.best_effort() == best_effort_senders@,
            f.spooler_view() is None,
    {
        Self { required_senders, best_effort_senders, spooler: None }
    }

    /// The same fan-out, spooling best-effort failures to `spooler`.
    pub fn with_spooler(self, spooler: Box<dyn Spooler>) -> (f: Self)
        ensures
            f.required() == self.required(),
            f.best_effort() == self.best_effort(),
            f.spooler_view() is Some,
            f.spooler_view().unwrap().spool_attempts() == spooler.spool_attempts(),
    {
        let ghost log = spooler.spool_attempts();
        let sp = Some(spooler);
        assert(sp.unwrap().spool_attempts() == log);
        Self { required_senders: self.required_senders, best_effort_senders: self.best_effort_senders, spooler: sp }
    }

    /// Number of required senders.
    pub fn required_sender_count(&self) -> (n: usize)
        ensures
            n == self.required().len(),
    {
        self.required_senders.len()
    }

    /// Number of best-effort senders.
    pub fn best_effort_sender_count(&self) -> (n: usize)
        ensures
            n == self.best_effort().len(),
    {
        self.best_effort_senders.len()
    }

    /// Whether a spooler is set.
    pub fn has_spooler(&self) -> (b: bool)
        ensures
            b == self.spooler_view() is Some,
    {
        self.spooler.is_some()
    }

    /// Checks the readiness of every required sender, in order, stopping at
    /// the first failure, then of every best-effort sender, whose failures
    /// are ignored. With no required senders the check always succeeds.
    pub fn check_ready(&self) -> (r: Result<(), String>)
        ensures
            ready_outcome_of(self.required(), r),
    {
        let mut i: usize = 0;
        while i < self.required_senders.len()
            invariant
                i <= self.required_senders@.len(),
                forall|k: int| 0 <= k < i ==> #[trigger] self.required()[k].readiness(Ok(())),
            decreases self.required_senders@.len() - i,
        {
            let res = self.required_senders[i].check_ready();
            match res {
                Err(e) => {
                    assert(self.required()[i as int].readiness(Err(e)));
                    return Err(e);
                },
                Ok(u) => {
                    assert(u == ());
                },
            }
            assert(self.required()[i as int].readiness(Ok(())));
            i = i + 1;
        }
        let mut j: usize = 0;
        while j < self.best_effort_senders.len()
            decreases self.best_effort_senders@.len() - j,
        {
            let _ = self.best_effort_senders[j].check_ready();
            j = j + 1;
        }
        Ok(())
    }

    /// Sends `alert` on `channel` through every required sender in order,
    /// stopping at the first failure, whose error is returned; when all
    /// required senders succeed, sends it through every best-effort sender,
    /// spooling each best-effort failure when a spooler is set, and succeeds.
    pub fn send_alert(&mut self, alert: &Alert, channel: u32) -> (r: Result<(), String>)
        ensures
            fanout_send_outcome(*old(self), *final(self), *alert, channel, r),
            final(self).spooler_view() is Some ==> spooled_after(
                *old(self),
                *final(self),
                *alert,
                channel,
                r,
            ),
    {
        let ghost pre = *self;
        let mut i: usize = 0;
        while i < self.required_senders.len()
            invariant
                pre == *old(self),
                i <= self.required_senders@.len(),
                self.required_senders@.len() == pre.required_senders@.len(),
                self.best_effort_senders@ == pre.best_effort_senders@,
                self.spooler == pre.spooler,
                required_ok_upto(pre, *self, *alert, channel, i as int),
                forall|k: int|
                    i <= k < pre.required_senders@.len() ==> self.required_senders@[k] == pre.required_senders@[k],
            decreases pre.required_senders@.len() - i,
        {
            let ghost before = self.required_senders@[i as int];
            let res = self.required_senders[i].send_alert(alert, channel);
            proof {
                let after = self.required_senders@[i as int];
                assert(after.spec_name() == before.spec_name());
                assert(after.send_attempts() == before.send_attempts().push(SendAttempt { alert: *alert, channel, result: res }));
                assert(after.send_attempts().drop_last() =~= before.send_attempts());
                assert(after.send_attempts().len() == before.send_attempts().len() + 1);
                assert(after.send_attempts().last().alert == *alert);
                assert(after.send_attempts().last().channel == channel);
                assert(sent_once(before.send_attempts(), after.send_attempts(), *alert, channel));
            }
            if let Err(e) = res {
                proof {
                    assert(required_failed_at(pre, *self, *alert, channel, e, i as int));
                    assert(fanout_send_outcome(pre, *self, *alert, channel, Err(e)));
                }
                return Err(e);
            }
            proof {
                assert forall|k: int| 0 <= k < i + 1 implies #[trigger] sent_once(
                    pre.required()[k].send_attempts(),
                    self.required()[k].send_attempts(),
                    *alert,
                    channel,
                ) && self.required()[k].send_attempts().last().result is Ok
                    && self.required()[k].spec_name() == pre.required()[k].spec_name() by {
                    if k < i {
                        assert(required_ok_upto(pre, *self, *alert, channel, i as int));
                    }
                }
            }
            i = i + 1;
        }
        let mut j: usize = 0;
        while j < self.best_effort_senders.len()
            invariant
                pre == *old(self),
                j <= self.best_effort_senders@.len(),
                self.best_effort_senders@.len() == pre.best_effort_senders@.len(),
                self.required_senders@.len() == pre.required_senders@.len(),
                required_ok_upto(pre, *self, *alert, channel, pre.required_senders@.len() as int),
                forall|k: int|
                    0 <= k < j ==> #[trigger] sent_once(pre.best_effort_senders@[k].send_attempts(), self.best_effort_senders@[k].send_attempts(), *alert, channel) && self.best_effort_senders@[k].spec_name() == pre.best_effort_senders@[k].spec_name(),
                forall|k: int|
                    j <= k < pre.best_effort_senders@.len() ==> self.best_effort_senders@[k] == pre.best_effort_senders@[k],
                self.spooler is Some <==> pre.spooler is Some,
                self.spooler is Some ==> self.spooler.unwrap().spool_attempts().len()
                    >= pre.spooler.unwrap().spool_attempts().len(),
                self.spooler is Some ==> self.spooler.unwrap().spool_attempts().take(
                    pre.spooler.unwrap().spool_attempts().len() as int,
                ) == pre.spooler.unwrap().spool_attempts(),
                self.spooler is Some ==> spooled_for(
                    self.spooler.unwrap().spool_attempts().skip(
                        pre.spooler.unwrap().spool_attempts().len() as int,
                    ),
                    failed_sends(self.best_effort_senders@.take(j as int)),
                    *alert,
                    channel,
                ),
            decreases pre.best_effort_senders@.len() - j,
        {
            let ghost before = self.best_effort_senders@;
            let ghost before_spool = self.spooler;
            let ghost before_self = *self;
            let res = self.best_effort_senders[j].send_alert(alert, channel);
            proof {
                let after = self.best_effort_senders@[j as int];
                assert(after.send_attempts().drop_last() =~= before[j as int].send_attempts());
                assert(sent_once(before[j as int].send_attempts(), after.send_attempts(), *alert, channel));
                assert(self.best_effort_senders@.take(j as int) =~= before.take(j as int));
                assert(self.best_effort_senders@.take(j + 1).drop_last() =~= self.best_effort_senders@.take(
                    j as int,
                ));
                assert(self.best_effort_senders@.take(j + 1).last() == self.best_effort_senders@[j as int]);
            }
            if let Err(e) = res {
                let name = self.best_effort_senders[j].name();
                let mut taken = self.spooler.take();
                if let Some(spooler) = &mut taken {
                    let record = SpoolRecord::from_failure(name, alert, channel, e.as_str());
                    let _ = spooler.spool(&record);
                    proof {
                        let old_log = before_spool.unwrap().spool_attempts();
                        let base = pre.spooler.unwrap().spool_attempts();
                        let new_log = old_log.push(record);
                        assert(new_log.take(base.len() as int) =~= old_log.take(base.len() as int));
                        assert(new_log.skip(base.len() as int) =~= old_log.skip(base.len() as int).push(
                            record,
                        ));
                    }
                }
                self.spooler = taken;
            }
            proof {
                assert(self.required_senders@ == before_self.required_senders@);
                lemma_required_frame(pre, before_self, *self, *alert, channel, pre.required_senders@.len() as int);
            }
            j = j + 1;
        }
        proof {
            assert(self.best_effort_senders@.take(self.best_effort_senders@.len() as int)
                =~= self.best_effort_senders@);
            assert(required_ok_upto(pre, *self, *alert, channel, pre.required().len() as int));
        }
        Ok(())
    }

    /// Like `send_alert`, and also hands the emitter one delivery attempt
    /// record per sender called, in call order; failures to write event
    /// records are ignored.
    pub fn send_alert_with_events<E: EventEmitter + ?Sized>(
        &mut self,
        alert: &Alert,
        channel: u32,
        alert_id: &str,
        event_emitter: &mut E,
    ) -> (r: Result<(), String>)
        ensures
            fanout_send_outcome(*old(self), *final(self), *alert, channel, r),
            final(self).spooler_view() is Some ==> spooled_after(
                *old(self),
                *final(self),
                *alert,
                channel,
                r,
            ),
            delivery_events_after(
                *old(self),
                *final(self),
                old(event_emitter).emitted(),
                final(event_emitter).emitted(),
                *alert,
                alert_id@,
                channel,
                r,
            ),
    {
        let ghost pre = *self;
        let ghost log0 = event_emitter.emitted();
        let mut i: usize = 0;
        while i < self.required_senders.len()
            invariant
                pre == *old(self),
                log0 == old(event_emitter).emitted(),
                i <= self.required_senders@.len(),
                self.required_senders@.len() == pre.required_senders@.len(),
                self.best_effort_senders@ == pre.best_effort_senders@,
                self.spooler == pre.spooler,
                required_ok_upto(pre, *self, *alert, channel, i as int),
                forall|k: int|
                    i <= k < pre.required_senders@.len() ==> self.required_senders@[k] == pre.required_senders@[k],
                event_emitter.emitted().len() == log0.len() + i,
                event_emitter.emitted().take(log0.len() as int) == log0,
                forall|k: int|
                    0 <= k < i ==> #[trigger] delivery_record_for(
                        event_emitter.emitted()[log0.len() + k],
                        alert_id@,
                        self.required_senders@[k].spec_name(),
                        true,
                        channel,
                        self.required_senders@[k].send_attempts().last().result,
                    ),
            decreases pre.required_senders@.len() - i,
        {
            let ghost before = self.required_senders@[i as int];
            let ghost log_before = event_emitter.emitted();
            let res = self.required_senders[i].send_alert(alert, channel);
            let name = self.required_senders[i].name();
            proof {
                let after = self.required_senders@[i as int];
                assert(after.send_attempts().drop_last() =~= before.send_attempts());
                assert(sent_once(before.send_attempts(), after.send_attempts(), *alert, channel));
            }
            let record = delivery_record(alert_id, name, true, channel, &res);
            let _ = event_emitter.emit_delivery_attempt(&record);
            proof {
                let log = event_emitter.emitted();
                assert(log.take(log0.len() as int) =~= log_before.take(log0.len() as int));
                assert forall|k: int| 0 <= k < i + 1 implies #[trigger] delivery_record_for(
                    log[log0.len() + k],
                    alert_id@,
                    self.required_senders@[k].spec_name(),
                    true,
                    channel,
                    self.required_senders@[k].send_attempts().last().result,
                ) by {
                    if k < i {
                        assert(log[log0.len() + k] == log_before[log0.len() + k]);
                    }
                }
            }
            if let Err(e) = res {
                proof {
                    assert(required_failed_at(pre, *self, *alert, channel, e, i as int));
                    assert(fanout_send_outcome(pre, *self, *alert, channel, Err(e)));
                }
                return Err(e);
            }
            i = i + 1;
        }
        let mut j: usize = 0;
        let ghost nreq = pre.required_senders@.len();
        while j < self.best_effort_senders.len()
            invariant
                pre == *old(self),
                log0 == old(event_emitter).emitted(),
                nreq == pre.required_senders@.len(),
                j <= self.best_effort_senders@.len(),
                self.best_effort_senders@.len() == pre.best_effort_senders@.len(),
                self.required_senders@.len() == nreq,
                required_ok_upto(pre, *self, *alert, channel, nreq as int),
                forall|k: int|
                    0 <= k < j ==> #[trigger] sent_once(pre.best_effort_senders@[k].send_attempts(), self.best_effort_senders@[k].send_attempts(), *alert, channel) && self.best_effort_senders@[k].spec_name() == pre.best_effort_senders@[k].spec_name(),
                forall|k: int|
                    j <= k < pre.best_effort_senders@.len() ==> self.best_effort_senders@[k] == pre.best_effort_senders@[k],
                self.spooler is Some <==> pre.spooler is Some,
                self.spooler is Some ==> self.spooler.unwrap().spool_attempts().len()
                    >= pre.spooler.unwrap().spool_attempts().len(),
                self.spooler is Some ==> self.spooler.unwrap().spool_attempts().take(
                    pre.spooler.unwrap().spool_attempts().len() as int,
                ) == pre.spooler.unwrap().spool_attempts(),
                self.spooler is Some ==> spooled_for(
                    self.spooler.unwrap().spool_attempts().skip(
                        pre.spooler.unwrap().spool_attempts().len() as int,
                    ),
                    failed_sends(self.best_effort_senders@.take(j as int)),
                    *alert,
                    channel,
                ),
                event_emitter.emitted().len() == log0.len() + nreq + j,
                event_emitter.emitted().take(log0.len() as int) == log0,
                forall|k: int|
                    0 <= k < nreq ==> #[trigger] delivery_record_for(
                        event_emitter.emitted()[log0.len() + k],
                        alert_id@,
                        self.required_senders@[k].spec_name(),
                        true,
                        channel,
                        self.required_senders@[k].send_attempts().last().result,
                    ),
                forall|k: int|
                    0 <= k < j ==> #[trigger] delivery_record_for(
                        event_emitter.emitted()[log0.len() + nreq + k],
                        alert_id@,
                        self.best_effort_senders@[k].spec_name(),
                        false,
                        channel,
                        self.best_effort_senders@[k].send_attempts().last().result,
                    ),
            decreases pre.best_effort_senders@.len() - j,
        {
            let ghost before = self.best_effort_senders@;
            let ghost before_spool = self.spooler;
            let ghost log_before = event_emitter.emitted();
            let res = self.best_effort_senders[j].send_alert(alert, channel);
            let name = self.best_effort_senders[j].name();
            proof {
                let after = self.best_effort_senders@[j as int];
                assert(after.send_attempts().drop_last() =~= before[j as int].send_attempts());
                assert(sent_once(before[j as int].send_attempts(), after.send_attempts(), *alert, channel));
                assert(self.best_effort_senders@.take(j as int) =~= before.take(j as int));
                assert(self.best_effort_senders@.take(j + 1).drop_last() =~= self.best_effort_senders@.take(
                    j as int,
                ));
                assert(self.best_effort_senders@.take(j + 1).last() == self.best_effort_senders@[j as int]);
            }
            let record = delivery_record(alert_id, name, false, channel, &res);
            let _ = event_emitter.emit_delivery_attempt(&record);
            proof {
                let log = event_emitter.emitted();
                assert(log.take(log0.len() as int) =~= log_before.take(log0.len() as int));
                assert forall|k: int| 0 <= k < nreq implies #[trigger] delivery_record_for(
                    log[log0.len() + k],
                    alert_id@,
                    self.required_senders@[k].spec_name(),
                    true,
                    channel,
                    self.required_senders@[k].send_attempts().last().result,
                ) by {
                    assert(log[log0.len() + k] == log_before[log0.len() + k]);
                }
                assert forall|k: int| 0 <= k < j + 1 implies #[trigger] delivery_record_for(
                    log[log0.len() + nreq + k],
                    alert_id@,
                    self.best_effort_senders@[k].spec_name(),
                    false,
                    channel,
                    self.best_effort_senders@[k].send_attempts().last().result,
                ) by {
                    if k < j {
                        assert(log[log0.len() + nreq + k] == log_before[log0.len() + nreq + k]);
                    }
                }
            }
            if let Err(e) = res {
                let mut taken = self.spooler.take();
                if let Some(spooler) = &mut taken {
                    let record = SpoolRecord::from_failure(name, alert, channel, e.as_str());
                    let _ = spooler.spool(&record);
                    proof {
                        let old_log = before_spool.unwrap().spool_attempts();
                        let base = pre.spooler.unwrap().spool_attempts();
                        let new_log = old_log.push(record);
                        assert(new_log.take(base.len() as int) =~= old_log.take(base.len() as int));
                        assert(new_log.skip(base.len() as int) =~= old_log.skip(base.len() as int).push(
                            record,
                        ));
                    }
                }
                self.spooler = taken;
            }
            j = j + 1;
        }
        proof {
            assert(self.best_effort_senders@.take(self.best_effort_senders@.len() as int)
                =~= self.best_effort_senders@);
        }
        Ok(())
    }

    /// Checks readiness like `check_ready`, and also hands the emitter one
    /// sender status record per sender checked, in order; failures to write
    /// event records are ignored.
    pub fn check_ready_with_events<E: EventEmitter + ?Sized>(&self, event_emitter: &mut E) -> (r: Result<
        (),
        String,
    >)
        ensures
            ready_outcome_of(self.required(), r),
            readiness_events_after(
                *self,
                old(event_emitter).emitted(),
                final(event_emitter).emitted(),
                r,
            ),
    {
        let ghost log0 = event_emitter.emitted();
        let ghost nreq = self.required_senders@.len();
        let mut i: usize = 0;
        while i < self.required_senders.len()
            invariant
                log0 == old(event_emitter).emitted(),
                nreq == self.required_senders@.len(),
                i <= nreq,
                forall|k: int| 0 <= k < i ==> #[trigger] self.required()[k].readiness(Ok(())),
                event_emitter.emitted().len() == log0.len() + i,
                event_emitter.emitted().take(log0.len() as int) == log0,
                forall|k: int|
                    0 <= k < i ==> #[trigger] status_record_for(
                        event_emitter.emitted()[log0.len() + k],
                        self.required_senders@[k].spec_name(),
                        true,
                        true,
                        None,
                    ),
            decreases nreq - i,
        {
            let ghost log_before = event_emitter.emitted();
            let name = self.required_senders[i].name();
            let res = self.required_senders[i].check_ready();
            match res {
                Err(e) => {
                    assert(self.required()[i as int].readiness(Err(e)));
                    let ghost eg = e;
                    let record = sender_status_record(name, true, false, Some(e.clone()));
                    let _ = event_emitter.emit_sender_status(&record);
                    proof {
                        let log = event_emitter.emitted();
                        assert(log.take(log0.len() as int) =~= log_before.take(log0.len() as int));
                        assert forall|k: int| 0 <= k < i implies #[trigger] status_record_for(
                            log[log0.len() + k],
                            self.required_senders@[k].spec_name(),
                            true,
                            true,
                            None,
                        ) by {
                            assert(log[log0.len() + k] == log_before[log0.len() + k]);
                        }
                    }
                    return Err(e);
                },
                Ok(u) => {
                    assert(u == ());
                    assert(self.required()[i as int].readiness(Ok(())));
                    let record = sender_status_record(name, true, true, None);
                    let _ = event_emitter.emit_sender_status(&record);
                    proof {
                        let log = event_emitter.emitted();
                        assert(log.take(log0.len() as int) =~= log_before.take(log0.len() as int));
                        assert forall|k: int| 0 <= k < i + 1 implies #[trigger] status_record_for(
                            log[log0.len() + k],
                            self.required_senders@[k].spec_name(),
                            true,
                            true,
                            None,
                        ) by {
                            if k < i {
                                assert(log[log0.len() + k] == log_before[log0.len() + k]);
                            }
                        }
                    }
                },
            }
            i = i + 1;
        }
        let mut j: usize = 0;
        while j < self.best_effort_senders.len()
            invariant
                log0 == old(event_emitter).emitted(),
                nreq == self.required_senders@.len(),
                j <= self.best_effort_senders@.len(),
                event_emitter.emitted().len() == log0.len() + nreq + j,
                event_emitter.emitted().take(log0.len() as int) == log0,
                forall|k: int|
                    0 <= k < nreq ==> #[trigger] status_record_for(
                        event_emitter.emitted()[log0.len() + k],
                        self.required_senders@[k].spec_name(),
                        true,
                        true,
                        None,
                    ),
                forall|k: int| 0 <= k < nreq ==> #[trigger] self.required()[k].readiness(Ok(())),
                forall|k: int|
                    0 <= k < j ==> #[trigger] best_effort_status_for(
                        event_emitter.emitted()[log0.len() + nreq + k],
                        self.best_effort_senders@,
                        k,
                    ),
            decreases self.best_effort_senders@.len() - j,
        {
            let ghost log_before = event_emitter.emitted();
            let name = self.best_effort_senders[j].name();
            let res = self.best_effort_senders[j].check_ready();
            match res {
                Err(e) => {
                    assert(self.best_effort_senders@[j as int].readiness(Err(e)));
                    let ghost eg = e;
                    let record = sender_status_record(name, false, false, Some(e));
                    let _ = event_emitter.emit_sender_status(&record);
                    assert(record.error == Some(eg) && !record.ready);
                    assert(best_effort_status_for(
                        event_emitter.emitted().last(),
                        self.best_effort_senders@,
                        j as int,
                    ));
                },
                Ok(u) => {
                    assert(u == ());
                    assert(self.best_effort_senders@[j as int].readiness(Ok(())));
                    let record = sender_status_record(name, false, true, None);
                    let _ = event_emitter.emit_sender_status(&record);
                    assert(event_emitter.emitted().last() == EmittedRecord::SenderStatus(record));
                    assert(record.ready);
                    assert(record.error is None);
                    assert(status_record_for(event_emitter.emitted().last(), self.best_effort_senders@[j as int].spec_name(), false, true, None));
                    assert(best_effort_status_for(
                        event_emitter.emitted().last(),
                        self.best_effort_senders@,
                        j as int,
                    ));
                },
            }
            proof {
                let log = event_emitter.emitted();
                assert(log.take(log0.len() as int) =~= log_before.take(log0.len() as int));
                assert forall|k: int| 0 <= k < nreq implies #[trigger] status_record_for(
                    log[log0.len() + k],
                    self.required_senders@[k].spec_name(),
                    true,
                    true,
                    None,
                ) by {
                    assert(log[log0.len() + k] == log_before[log0.len() + k]);
                }
                assert forall|k: int| 0 <= k < j + 1 implies #[trigger] best_effort_status_for(
                    log[log0.len() + nreq + k],
                    self.best_effort_senders@,
                    k,
                ) by {
                    if k < j {
                        assert(log[log0.len() + nreq + k] == log_before[log0.len() + nreq + k]);
                    }
                }
            }
            j = j + 1;
        }
        Ok(())
    }
}

/// The delivery attempt record of one send.
fn delivery_record(
    alert_id: &str,
    sender: &str,
    required: bool,
    channel: u32,
    result: &Result<(), String>,
) -> (record: DeliveryAttemptRecord)
    ensures
        delivery_record_for(
            EmittedRecord::DeliveryAttempt(record),
            alert_id@,
            sender@,
            required,
            channel,
            *result,
        ),
{
    let (status, error) = match result {
        Ok(_) => (DeliveryAttemptStatus::Success, None),
        Err(e) => (DeliveryAttemptStatus::Failure, Some(e.clone())),
    };
    DeliveryAttemptRecord {
        schema_version: EVENT_CONTRACT_SCHEMA_VERSION,
        record_type: "delivery_attempt".to_owned(),
        alert_id: alert_id.to_owned(),
        timestamp_unix_secs: unix_timestamp_secs(),
        sender: sender.to_owned(),
        required,
        channel: Some(channel),
        status,
        error,
    }
}

/// The status record of one readiness check.
fn sender_status_record(
    sender: &str,
    required: bool,
    ready: bool,
    error: Option<String>,
) -> (record: SenderStatusRecord)
    ensures
        status_record_for(EmittedRecord::SenderStatus(record), sender@, required, ready, error),
{
    let timestamp = unix_timestamp_secs();
    SenderStatusRecord {
        schema_version: EVENT_CONTRACT_SCHEMA_VERSION,
        record_type: "sender_status".to_owned(),
        timestamp_unix_secs: timestamp,
        sender: sender.to_owned(),
        configured: true,
        required,
        ready,
        last_success_unix_secs: if ready {
            Some(timestamp)
        } else {
            None
        },
        last_failure_unix_secs: if ready {
            None
        } else {
            Some(timestamp)
        },
        error,
    }
}

/// `rec` is the status record of a best-effort readiness check of `sender`:
/// ready exactly when it carries no error.
pub open spec fn best_effort_status_for(rec: EmittedRecord, senders: Seq<Box<dyn Sender>>, k: int) -> bool {
    &&& rec matches EmittedRecord::SenderStatus(s)
    &&& status_record_for(rec, senders[k].spec_name(), false, s.ready, s.error)
    &&& (s.ready <==> s.error is None)
    &&& senders[k].readiness(check_result(s.ready, s.error))
}

/// The outcome of a readiness check that a status record reports.
pub open spec fn check_result(ready: bool, error: Option<String>) -> Result<(), String> {
    if ready {
        Ok(())
    } else {
        Err(error.unwrap())
    }
}

/// The emitter received, after `before`, one status record per checked
/// sender: on success every required sender ready then every best-effort
/// sender's status; on failure with `e` the required senders up to the
/// first not ready, whose record carries `e`.
pub open spec fn readiness_events_after(
    f: FanOut,
    before: Seq<EmittedRecord>,
    after: Seq<EmittedRecord>,
    r: Result<(), String>,
) -> bool {
    let n = before.len();
    let nreq = f.required().len();
    &&& after.len() >= n
    &&& after.take(n as int) == before
    &&& match r {
        Ok(_) => {
            &&& after.len() == n + nreq + f.best_effort().len()
            &&& forall|k: int|
                0 <= k < nreq ==> #[trigger] status_record_for(
                    after[n + k],
                    f.required()[k].spec_name(),
                    true,
                    true,
                    None,
                )
            &&& forall|k: int|
                0 <= k < f.best_effort().len() ==> #[trigger] best_effort_status_for(
                    after[n + nreq + k],
                    f.best_effort(),
                    k,
                )
        },
        Err(e) => {
            let m = after.len() - n;
            &&& 1 <= m <= nreq
            &&& forall|k: int|
                0 <= k < m - 1 ==> #[trigger] status_record_for(
                    after[n + k],
                    f.required()[k].spec_name(),
                    true,
                    true,
                    None,
                )
            &&& status_record_for(after.last(), f.required()[m - 1].spec_name(), true, false, Some(e))
            &&& forall|k: int| 0 <= k < m - 1 ==> #[trigger] f.required()[k].readiness(Ok(()))
            &&& f.required()[m - 1].readiness(Err(e))
        },
    }
}

/// A readiness check that failed with `e` stopped at the first required
/// sender whose check failed: every required sender before it said ready
/// and got a ready status record, it got a record carrying `e`, and no
/// later sender, required or best-effort, got any record.
pub proof fn law_readiness_check_stops_at_first_failure(
    f: FanOut,
    before: Seq<EmittedRecord>,
    after: Seq<EmittedRecord>,
    e: String,
)
    requires
        readiness_events_after(f, before, after, Err(e)),
    ensures
        exists|m: int|
            #![trigger f.required()[m]]
            {
                &&& 0 <= m < f.required().len()
                &&& after.len() == before.len() + m + 1
                &&& after.take(before.len() as int) == before
                &&& f.required()[m].readiness(Err(e))
                &&& status_record_for(after[before.len() + m], f.required()[m].spec_name(), true, false, Some(e))
                &&& forall|k: int|
                    0 <= k < m ==> #[trigger] f.required()[k].readiness(Ok(())) && status_record_for(
                        after[before.len() + k],
                        f.required()[k].spec_name(),
                        true,
                        true,
                        None,
                    )
            },
{
    let m = after.len() - before.len() - 1;
    assert(after.last() == after[before.len() + m]);
    assert(f.required()[m].readiness(Err(e)));
}

/// The result of a send is `Ok` exactly when every required sender was
/// called once and succeeded; on a failure no best-effort sender was called
/// and nothing was spooled.
pub proof fn law_send_ok_iff_required_ok(pre: FanOut, post: FanOut, alert: Alert, channel: u32, r: Result<(), String>)
    requires
        fanout_send_outcome(pre, post, alert, channel, r),
    ensures
        r is Ok <==> required_ok_upto(pre, post, alert, channel, pre.required().len() as int),
        r is Err ==> post.best_effort() == pre.best_effort() && post.spooler_view() == pre.spooler_view(),
{
    if let Err(e) = r {
        let f = choose|f: int| #[trigger] required_failed_at(pre, post, alert, channel, e, f);
        assert(required_failed_at(pre, post, alert, channel, e, f));
        if required_ok_upto(pre, post, alert, channel, pre.required().len() as int) {
            assert(sent_once(pre.required()[f].send_attempts(), post.required()[f].send_attempts(), alert, channel)
                && post.required()[f].send_attempts().last().result is Ok);
        }
    }
}

/// A send with events (`send_alert_with_events`) behaves as the plain send
/// (`send_alert`): given senders that answer alike, so that both sends take
/// the fan-out `pre` to `post`, they return the same result and call the same
/// senders, and with every best-effort send made they spool the same
/// failures. The send with events also handed the emitter exactly one
/// delivery record per sender called, whatever the emitter returned: all
/// senders on success, the required ones up to the failed one otherwise.
pub proof fn law_send_with_events_matches_plain_send(
    pre: FanOut,
    post: FanOut,
    alert: Alert,
    channel: u32,
    alert_id: Seq<char>,
    r_plain: Result<(), String>,
    r_events: Result<(), String>,
    before: Seq<EmittedRecord>,
    after: Seq<EmittedRecord>,
)
    requires
        fanout_send_outcome(pre, post, alert, channel, r_plain),
        fanout_send_outcome(pre, post, alert, channel, r_events),
        delivery_events_after(pre, post, before, after, alert, alert_id, channel, r_events),
    ensures
        r_plain == r_events,
        r_events is Ok ==> after.len() == before.len() + pre.required().len() + pre.best_effort().len(),
        r_events matches Err(e) ==> exists|f: int|
            #![trigger required_failed_at(pre, post, alert, channel, e, f)]
            required_failed_at(pre, post, alert, channel, e, f) && after.len() == before.len() + f + 1,
{
    law_send_result_follows_sender_answers(pre, post, alert, channel, r_plain, r_events);
    if let Err(e) = r_events {
        let f = after.len() - before.len() - 1;
        assert(required_failed_at(pre, post, alert, channel, e, f));
    }
}

/// What a send returns is decided by what its senders answered: two sends
/// of one alert that leave the senders in the same states return the same
/// result, whether or not they wrote delivery events.
pub proof fn law_send_result_follows_sender_answers(
    pre: FanOut,
    post: FanOut,
    alert: Alert,
    channel: u32,
    r1: Result<(), String>,
    r2: Result<(), String>,
)
    requires
        fanout_send_outcome(pre, post, alert, channel, r1),
        fanout_send_outcome(pre, post, alert, channel, r2),
    ensures
        r1 == r2,
{
    law_send_ok_iff_required_ok(pre, post, alert, channel, r1);
    law_send_ok_iff_required_ok(pre, post, alert, channel, r2);
    if let (Ok(u1), Ok(u2)) = (r1, r2) {
        assert(u1 == u2);
    }
    if let (Err(e1), Err(e2)) = (r1, r2) {
        let f1 = choose|f: int| #[trigger] required_failed_at(pre, post, alert, channel, e1, f);
        let f2 = choose|f: int| #[trigger] required_failed_at(pre, post, alert, channel, e2, f);
        assert(required_failed_at(pre, post, alert, channel, e1, f1));
        assert(required_failed_at(pre, post, alert, channel, e2, f2));
        if f1 < f2 {
            assert(sent_once(pre.required()[f1].send_attempts(), post.required()[f1].send_attempts(), alert, channel)
                && post.required()[f1].send_attempts().last().result is Ok);
        } else if f2 < f1 {
            assert(sent_once(pre.required()[f2].send_attempts(), post.required()[f2].send_attempts(), alert, channel)
                && post.required()[f2].send_attempts().last().result is Ok);
        } else {
            assert(Err::<(), String>(e1) == Err::<(), String>(e2));
        }
    }
}

/// The emitter received, after `before`, one delivery attempt record per
/// sender called, in call order, each carrying what that call returned.
pub open spec fn delivery_events_after(
    pre: FanOut,
    post: FanOut,
    before: Seq<EmittedRecord>,
    after: Seq<EmittedRecord>,
    alert: Alert,
    alert_id: Seq<char>,
    channel: u32,
    r: Result<(), String>,
) -> bool {
    let n = before.len();
    let nreq = post.required().len();
    &&& after.len() >= n
    &&& after.take(n as int) == before
    &&& forall|k: int|
        0 <= k < after.len() - n && k < nreq ==> #[trigger] delivery_record_for(
            after[n + k],
            alert_id,
            post.required()[k].spec_name(),
            true,
            channel,
            post.required()[k].send_attempts().last().result,
        )
    &&& match r {
        Ok(_) => {
            &&& after.len() == n + nreq + post.best_effort().len()
            &&& forall|k: int|
                0 <= k < post.best_effort().len() ==> #[trigger] delivery_record_for(
                    after[n + nreq + k],
                    alert_id,
                    post.best_effort()[k].spec_name(),
                    false,
                    channel,
                    post.best_effort()[k].send_attempts().last().result,
                )
        },
        Err(e) => {
            &&& n < after.len() <= n + nreq
            &&& required_failed_at(pre, post, alert, channel, e, after.len() - n - 1)
        },
    }
}

/// The senders of `post` are those of `pre` after sending `alert` on
/// `channel` with overall result `r`: on success every sender was called
/// once and every required call succeeded; on failure with error `e` the
/// required senders were called in order up to the first, which failed with
/// `e`, and no later sender was called.
pub open spec fn fanout_send_outcome(pre: FanOut, post: FanOut, alert: Alert, channel: u32, r: Result<(), String>) -> bool {
    &&& post.required().len() == pre.required().len()
    &&& post.best_effort().len() == pre.best_effort().len()
    &&& (post.spooler_view() is Some <==> pre.spooler_view() is Some)
    &&& match r {
        Ok(_) => {
            &&& required_ok_upto(pre, post, alert, channel, pre.required().len() as int)
            &&& forall|k: int|
                0 <= k < pre.best_effort().len() ==> #[trigger] sent_once(
                    pre.best_effort()[k].send_attempts(),
                    post.best_effort()[k].send_attempts(),
                    alert,
                    channel,
                ) && post.best_effort()[k].spec_name() == pre.best_effort()[k].spec_name()
        },
        Err(e) => exists|f: int| #[trigger] required_failed_at(pre, post, alert, channel, e, f),
    }
}

/// The first `upto` required senders of `pre` were each called once with
/// `alert` on `channel` and succeeded, giving those of `post`.
pub open spec fn required_ok_upto(pre: FanOut, post: FanOut, alert: Alert, channel: u32, upto: int) -> bool {
    forall|k: int|
        0 <= k < upto ==> #[trigger] sent_once(
            pre.required()[k].send_attempts(),
            post.required()[k].send_attempts(),
            alert,
            channel,
        ) && post.required()[k].send_attempts().last().result is Ok
            && post.required()[k].spec_name() == pre.required()[k].spec_name()
}

proof fn lemma_required_frame(pre: FanOut, a: FanOut, b: FanOut, alert: Alert, channel: u32, n: int)
    requires
        required_ok_upto(pre, a, alert, channel, n),
        a.required() == b.required(),
    ensures
        required_ok_upto(pre, b, alert, channel, n),
{
    assert forall|k: int| 0 <= k < n implies #[trigger] sent_once(
        pre.required()[k].send_attempts(),
        b.required()[k].send_attempts(),
        alert,
        channel,
    ) && b.required()[k].send_attempts().last().result is Ok
        && b.required()[k].spec_name() == pre.required()[k].spec_name() by {
        assert(b.required()[k] == a.required()[k]);
        assert(sent_once(pre.required()[k].send_attempts(), a.required()[k].send_attempts(), alert, channel));
    }
}

/// Delivery stopped at required sender `f`, which failed with `e` after the
/// senders before it succeeded; nothing after it was called.
pub open spec fn required_failed_at(pre: FanOut, post: FanOut, alert: Alert, channel: u32, e: String, f: int) -> bool {
    &&& 0 <= f < pre.required().len()
    &&& required_ok_upto(pre, post, alert, channel, f)
    &&& sent_once(pre.required()[f].send_attempts(), post.required()[f].send_attempts(), alert, channel)
    &&& post.required()[f].spec_name() == pre.required()[f].spec_name()
    &&& post.required()[f].send_attempts().last().result == Err::<(), String>(e)
    &&& forall|k: int| f < k < pre.required().len() ==> post.required()[k] == pre.required()[k]
    &&& post.best_effort() == pre.best_effort()
    &&& post.spooler_view() == pre.spooler_view()
}

/// On success the spooler received, after what it held before, exactly the
/// records of the best-effort failures in order.
pub open spec fn spooled_after(pre: FanOut, post: FanOut, alert: Alert, channel: u32, r: Result<(), String>) -> bool {
    let before = pre.spooler_view().unwrap().spool_attempts();
    let after = post.spooler_view().unwrap().spool_attempts();
    r is Ok ==> {
        &&& after.len() >= before.len()
        &&& after.take(before.len() as int) == before
        &&& spooled_for(
            after.skip(before.len() as int),
            failed_sends(post.best_effort()),
            alert,
            channel,
        )
    }
}

} // verus!
