//! The decisions around a download: how often it is retried, and what progress
//! is reported while it runs.
use vstd::prelude::*;
use crate::integrity::{Channel, Message, notes};
use crate::text::{decimal, decimal_string, concat3};

verus! {

/// How many times a download is attempted before the launcher gives up.
pub const MAX_RETRIES: u32 = 3;

/// How long the launcher waits between two attempts, in seconds.
pub const RETRY_DELAY_SECS: u64 = 2;

/// What follows an attempt: `None` to wait and try again, `Some(failed)` when
/// the download is over, after attempt number `attempt` (counted from one)
/// succeeded (`ok`) or not.
pub open spec fn retry_finishes(attempt: nat, ok: bool) -> Option<bool> {
    if ok {
        Some(false)
    } else if attempt < MAX_RETRIES {
        None
    } else {
        Some(true)
    }
}

/// The end of a run of attempts whose outcomes are `oks`, starting after
/// `done` attempts: how many attempts were made in all, and whether the
/// download failed; `None` where `oks` runs out first.
pub open spec fn retry_run(done: nat, oks: Seq<bool>) -> Option<(nat, bool)>
    decreases oks.len(),
{
    if oks.len() == 0 {
        None
    } else {
        match retry_finishes(done + 1, oks[0]) {
            Some(failed) => Some((done + 1, failed)),
            None => retry_run(done + 1, oks.drop_first()),
        }
    }
}

pub open spec fn msg_attempt_failed(attempt: nat, error: Seq<char>) -> Seq<char> {
    "Attempt "@ + decimal(attempt) + " failed: "@ + error
}

/// What comes after an attempt.
pub enum RetryNext {
    /// Wait this many seconds, then attempt again.
    Retry { wait_secs: u64 },
    /// The download is over; `failed` tells whether it failed.
    Finished { failed: bool },
}

pub struct RetryStep {
    pub messages: Vec<Message>,
    pub next: RetryNext,
}

/// The retry loop of a download: the number of attempts made so far.
pub struct DownloadRetry {
    pub retry: u32,
}

impl DownloadRetry {
    pub fn new() -> (r: DownloadRetry)
        ensures
            r.retry == 0,
    {
        DownloadRetry { retry: 0 }
    }

    /// Takes the outcome of the attempt just made, reports it, and says what follows.
    pub fn on_result(&mut self, result: Result<(), String>) -> (step: RetryStep)
        requires
            old(self).retry < MAX_RETRIES,
        ensures
            final(self).retry == old(self).retry + 1,
            match step.next {
                RetryNext::Retry { wait_secs } =>
                    wait_secs == RETRY_DELAY_SECS
                        && retry_finishes(final(self).retry as nat, result is Ok) is None,
                RetryNext::Finished { failed } =>
                    retry_finishes(final(self).retry as nat, result is Ok) == Some(failed),
            },
            match result {
                Ok(_) => notes(step.messages@) == seq![(Channel::Stdout, "File downloaded successfully!"@)],
                Err(e) => if final(self).retry < MAX_RETRIES {
                    notes(step.messages@) == seq![
                        (Channel::Stderr, msg_attempt_failed(final(self).retry as nat, e@)),
                        (Channel::Stdout, "Retrying in 2 seconds..."@),
                    ]
                } else {
                    notes(step.messages@) == seq![
                        (Channel::Stderr, msg_attempt_failed(final(self).retry as nat, e@)),
                        (Channel::Stderr, "All attempts failed. Giving up."@),
                    ]
                },
            },
    {
        self.retry = self.retry + 1;
        let mut messages: Vec<Message> = Vec::new();
        match result {
            Ok(_) => {
                messages.push(Message {
                    channel: Channel::Stdout,
                    text: String::from_str("File downloaded successfully!"),
                });
                assert(notes(messages@) =~= seq![(Channel::Stdout, "File downloaded successfully!"@)]);
                RetryStep { messages, next: RetryNext::Finished { failed: false } }
            },
            Err(e) => {
                let number = decimal_string(self.retry as u64);
                let text = concat3("Attempt ", number.as_str(), " failed: ");
                let text = text.concat(e.as_str());
                messages.push(Message { channel: Channel::Stderr, text });
                if self.retry < MAX_RETRIES {
                    messages.push(Message {
                        channel: Channel::Stdout,
                        text: String::from_str("Retrying in 2 seconds..."),
                    });
                    assert(notes(messages@) =~= seq![
                        (Channel::Stderr, msg_attempt_failed(self.retry as nat, e@)),
                        (Channel::Stdout, "Retrying in 2 seconds..."@),
                    ]);
                    RetryStep { messages, next: RetryNext::Retry { wait_secs: RETRY_DELAY_SECS } }
                } else {
                    messages.push(Message {
                        channel: Channel::Stderr,
                        text: String::from_str("All attempts failed. Giving up."),
                    });
                    assert(notes(messages@) =~= seq![
                        (Channel::Stderr, msg_attempt_failed(self.retry as nat, e@)),
                        (Channel::Stderr, "All attempts failed. Giving up."@),
                    ]);
                    RetryStep { messages, next: RetryNext::Finished { failed: true } }
                }
            },
        }
    }
}

/// A download is attempted at most three times: whatever the outcomes, the run
/// ends by the third attempt; it ends at the first success and then has not
/// failed, and it fails exactly when the first three attempts all failed.
pub proof fn law_retry_at_most_three(oks: Seq<bool>)
    requires
        oks.len() >= 3,
    ensures
        retry_run(0, oks) matches Some((attempts, failed)) && {
            &&& 1 <= attempts <= 3
            &&& failed <==> (!oks[0] && !oks[1] && !oks[2])
            &&& !failed ==> oks[attempts - 1]
            &&& forall|j: int| 0 <= j < attempts - 1 ==> !oks[j]
        },
{
    let s1 = oks.drop_first();
    let s2 = s1.drop_first();
    assert(s1[0] == oks[1]);
    assert(s2[0] == oks[2]);
    reveal_with_fuel(retry_run, 4);
}

/// The progress of a download: its announced size and what has come so far.
pub struct DownloadProgress {
    pub total: u64,
    pub downloaded: u64,
}

/// The percentage shown once `downloaded` of `total` bytes have come.
pub open spec fn progress_percent(downloaded: nat, total: nat) -> nat {
    (100 * downloaded) / total
}

pub open spec fn msg_progress(percent: nat) -> Seq<char> {
    "File downloading: "@ + decimal(percent) + "%"@
}

impl DownloadProgress {
    pub fn new(total: u64) -> (p: DownloadProgress)
        ensures
            p.total == total,
            p.downloaded == 0,
    {
        DownloadProgress { total, downloaded: 0 }
    }

    /// Counts a chunk of `len` bytes and gives the progress message for it.
    /// The announced size must not be zero, and the count, times a hundred,
    /// must fit in a `u64`.
    pub fn on_chunk(&mut self, len: u64) -> (m: Message)
        requires
            old(self).total > 0,
            100 * (old(self).downloaded + len) <= u64::MAX,
        ensures
            final(self).total == old(self).total,
            final(self).downloaded == old(self).downloaded + len,
            m@ == (Channel::Status, msg_progress(progress_percent(final(self).downloaded as nat, final(self).total as nat))),
    {
        self.downloaded = self.downloaded + len;
        let percent = 100 * self.downloaded / self.total;
        let number = decimal_string(percent);
        let text = concat3("File downloading: ", number.as_str(), "%");
        Message { channel: Channel::Status, text }
    }
}

/// The percentage shown is the whole part of `100 * downloaded / total`, in
/// unbounded integers: it times `total` does not exceed a hundred times what
/// has come, and one more would.
pub proof fn law_progress_is_floor_percentage(downloaded: nat, total: nat)
    requires
        total > 0,
    ensures
        progress_percent(downloaded, total) * total <= 100 * downloaded,
        100 * downloaded < (progress_percent(downloaded, total) + 1) * total,
{
    let x = (100 * downloaded) as int;
    let d = total as int;
    vstd::arithmetic::div_mod::lemma_fundamental_div_mod(x, d);
    vstd::arithmetic::div_mod::lemma_mod_bound(x, d);
    let q = x / d;
    assert(progress_percent(downloaded, total) == q);
    assert(q * d == d * q) by (nonlinear_arith);
    assert((q + 1) * d == q * d + d) by (nonlinear_arith);
}

/// The percentage never goes down as more of the file comes.
pub proof fn law_progress_is_monotone(before: nat, after: nat, total: nat)
    requires
        total > 0,
        before <= after,
    ensures
        progress_percent(before, total) <= progress_percent(after, total),
{
    law_progress_is_floor_percentage(before, total);
    law_progress_is_floor_percentage(after, total);
    let p = progress_percent(before, total) as int;
    let q = progress_percent(after, total) as int;
    let t = total as int;
    if p > q {
        assert(p * t >= (q + 1) * t) by (nonlinear_arith)
            requires p >= q + 1, t > 0;
    }
}

} // verus!
