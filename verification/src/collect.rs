//! The stand-alone collector, which reports on the standard output.
use vstd::prelude::*;

use crate::job::accumulate::{accumulate, RgbPicture};
use crate::job::summarize::{averaged, count_text, result_path, Collected, ResultCollector, collect_step_in_range};
use crate::job::{is_print, is_save, JobEffect, Received};
use crate::text::two_numbered;

verus! {

impl ResultCollector {
    /// One message, as the stand-alone collector takes it.
    ///
    /// Before the first picture: every message counts as received and
    /// prints "none r / t"; the first picture becomes the average, and when a
    /// single page was asked for the collector is done with it. After it: a
    /// picture is folded into the average; every message counts as received
    /// and prints "some r / t"; when the count reaches the number of workers
    /// the average is saved to "./result.jpeg" and the collector is done. A
    /// channel without senders changes nothing.
    pub fn receive_printing(self, event: Received) -> (r: (Collected, Vec<JobEffect>))
        requires
            collect_step_in_range(self, event),
        ensures
            match (self.medium, event) {
                (_, Received::Disconnected) => r.0 == Collected::Waiting(self) && r.1@.len() == 0,
                (None, _) => {
                    &&& r.1@.len() == 1
                    &&& is_print(
                        r.1@[0],
                        count_text("none "@, self.results_received + 1, self.thread_number as int),
                    )
                    &&& match event {
                        Received::Picture(p) => if self.pages == 1 {
                            r.0 == Collected::Done(p)
                        } else {
                            r.0 == Collected::Waiting(
                                ResultCollector {
                                    results_received: (self.results_received + 1) as usize,
                                    medium: Some(p),
                                    ..self
                                },
                            )
                        },
                        _ => r.0 == Collected::Waiting(
                            ResultCollector {
                                results_received: (self.results_received + 1) as usize,
                                ..self
                            },
                        ),
                    }
                },
                (Some(m), _) => {
                    let r2 = self.results_received + 1;
                    let valid2 = if event is Picture { self.valid_results_received + 1 } else {
                        self.valid_results_received as int
                    };
                    &&& r.1@.len() == if r2 == self.thread_number { 2int } else { 1int }
                    &&& is_print(r.1@[0], count_text("some "@, r2, self.thread_number as int))
                    &&& exists|m2: RgbPicture|
                        {
                            &&& match event {
                                Received::Picture(p) => averaged(m2, m, p, self.valid_results_received),
                                _ => m2 == m,
                            }
                            &&& if r2 == self.thread_number {
                                r.0 == Collected::Done(m2) && is_save(r.1@[1], result_path())
                            } else {
                                r.0 == Collected::Waiting(
                                    ResultCollector {
                                        results_received: r2 as usize,
                                        valid_results_received: valid2 as u8,
                                        medium: Some(m2),
                                        ..self
                                    },
                                )
                            }
                        }
                },
            },
    {
        let mut effects: Vec<JobEffect> = Vec::new();
        let ResultCollector { pages, thread_number, results_received, valid_results_received, medium } =
            self;
        match event {
            Received::Disconnected => {
                return (
                    Collected::Waiting(
                        ResultCollector {
                            pages,
                            thread_number,
                            results_received,
                            valid_results_received,
                            medium,
                        },
                    ),
                    effects,
                );
            },
            _ => {},
        }
        let results = results_received + 1;
        match medium {
            None => {
                effects.push(
                    JobEffect::Print(two_numbered("none ", results as u64, " / ", thread_number as u64)),
                );
                let medium = match event {
                    Received::Picture(p) => {
                        if pages == 1 {
                            return (Collected::Done(p), effects);
                        }
                        Some(p)
                    },
                    _ => None,
                };
                (
                    Collected::Waiting(
                        ResultCollector {
                            pages,
                            thread_number,
                            results_received: results,
                            valid_results_received,
                            medium,
                        },
                    ),
                    effects,
                )
            },
            Some(m) => {
                let mut m = m;
                let mut valid = valid_results_received;
                match event {
                    Received::Picture(p) => {
                        accumulate(&p, valid, &mut m);
                        valid = valid + 1;
                    },
                    _ => {},
                }
                effects.push(
                    JobEffect::Print(two_numbered("some ", results as u64, " / ", thread_number as u64)),
                );
                if results == thread_number {
                    effects.push(JobEffect::Save { path: String::from_str("./result.jpeg") });
                    (Collected::Done(m), effects)
                } else {
                    (
                        Collected::Waiting(
                            ResultCollector {
                                pages,
                                thread_number,
                                results_received: results,
                                valid_results_received: valid,
                                medium: Some(m),
                            },
                        ),
                        effects,
                    )
                }
            },
        }
    }
}

} // verus!
