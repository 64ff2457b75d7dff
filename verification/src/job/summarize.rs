//! Collecting the averaged pictures of the accumulating workers into one.
use vstd::prelude::*;

use crate::job::accumulate::{accumulate, spec_new_color, RgbPicture};
use crate::job::{is_info, is_save, JobEffect, Received};
use crate::text::{decimal, two_numbered};

verus! {

/// The collector's state: the number of pages asked for and of accumulating
/// workers, how many messages and how many pictures have come, and the
/// running average once a first picture has come.
pub struct ResultCollector {
    pub pages: usize,
    pub thread_number: usize,
    pub results_received: usize,
    pub valid_results_received: u8,
    pub medium: Option<RgbPicture>,
}

/// Either the collector goes on waiting, or it is done with a picture.
pub enum Collected {
    Waiting(ResultCollector),
    Done(RgbPicture),
}

/// Whether the collector can take `event` without an arithmetic overflow or
/// a missing pixel.
pub open spec fn collect_step_in_range(c: ResultCollector, event: Received) -> bool {
    match event {
        Received::Disconnected => true,
        Received::End => c.results_received < usize::MAX,
        Received::Picture(p) => c.results_received < usize::MAX && match c.medium {
            None => true,
            Some(m) => c.valid_results_received < 255 && p@.len() >= m@.len(),
        },
    }
}

/// The running average after a further picture: every pixel averaged with
/// the current number of pictures.
pub open spec fn averaged(m2: RgbPicture, m: RgbPicture, p: RgbPicture, i: u8) -> bool {
    &&& m2.spec_width() == m.spec_width()
    &&& m2.spec_height() == m.spec_height()
    &&& m2@.len() == m@.len()
    &&& forall|k: int| 0 <= k < m@.len() ==> #[trigger] m2@[k] == spec_new_color(p@[k], m@[k], i)
}

/// The text "prefix a / b".
pub open spec fn count_text(prefix: Seq<char>, a: int, b: int) -> Seq<char> {
    prefix + decimal(a as nat) + " / "@ + decimal(b as nat)
}

/// The file that the collector saves the final picture to.
pub open spec fn result_path() -> Seq<char> {
    "./result.jpeg"@
}

impl ResultCollector {
    /// A collector that has received nothing yet; the first picture to come
    /// counts as one picture already.
    pub fn new(pages: usize, thread_number: usize) -> (r: ResultCollector)
        ensures
            r.pages == pages,
            r.thread_number == thread_number,
            r.results_received == 0,
            r.valid_results_received == 1,
            r.medium is None,
    {
        ResultCollector {
            pages,
            thread_number,
            results_received: 0,
            valid_results_received: 1,
            medium: None,
        }
    }

    /// One message, as the summarizing worker takes it.
    ///
    /// Before the first picture: every message counts as received and as one
    /// unit of progress; an end marker logs "None r / t"; the first picture
    /// logs "Received first image" and becomes the average, and when a
    /// single page was asked for the worker closes and is done with it.
    /// After it: a picture is folded into the average; every message counts
    /// as received, logs "Some r / t" and one unit of progress; when the
    /// count reaches the number of workers the average is saved to
    /// "./result.jpeg" and the collector is done. A channel without senders
    /// changes nothing.
    pub fn receive(self, event: Received) -> (r: (Collected, Vec<JobEffect>))
        requires
            collect_step_in_range(self, event),
        ensures
            match (self.medium, event) {
                (_, Received::Disconnected) => r.0 == Collected::Waiting(self) && r.1@.len() == 0,
                (None, Received::End) => {
                    &&& r.0 == Collected::Waiting(
                        ResultCollector { results_received: (self.results_received + 1) as usize, ..self },
                    )
                    &&& r.1@.len() == 2
                    &&& r.1@[0] is Progress
                    &&& is_info(
                        r.1@[1],
                        count_text("None "@, self.results_received + 1, self.thread_number as int),
                    )
                },
                (None, Received::Picture(p)) => {
                    &&& r.1@.len() == if self.pages == 1 { 3int } else { 2int }
                    &&& r.1@[0] is Progress
                    &&& is_info(r.1@[1], "Received first image"@)
                    &&& if self.pages == 1 {
                        r.0 == Collected::Done(p) && r.1@[2] is Closed
                    } else {
                        r.0 == Collected::Waiting(
                            ResultCollector {
                                results_received: (self.results_received + 1) as usize,
                                medium: Some(p),
                                ..self
                            },
                        )
                    }
                },
                (Some(m), _) => {
                    let r2 = self.results_received + 1;
                    let valid2 = if event is Picture { self.valid_results_received + 1 } else {
                        self.valid_results_received as int
                    };
                    &&& r.1@.len() == if r2 == self.thread_number { 3int } else { 2int }
                    &&& is_info(r.1@[0], count_text("Some "@, r2, self.thread_number as int))
                    &&& r.1@[1] is Progress
                    &&& exists|m2: RgbPicture|
                        {
                            &&& match event {
                                Received::Picture(p) => averaged(m2, m, p, self.valid_results_received),
                                _ => m2 == m,
                            }
                            &&& if r2 == self.thread_number {
                                r.0 == Collected::Done(m2) && is_save(r.1@[2], result_path())
                            } else {
                                r.0 == Collected::Waiting(
                                    ResultCollector {
                                        results_received: r2 as usize,
                                        valid_results_received: valid2 as u8,
                                        medium: Some(m2),
                                        ..self
                                    },
                                )
                            }
                        }
                },
            },
    {
        let mut effects: Vec<JobEffect> = Vec::new();
        let ResultCollector { pages, thread_number, results_received, valid_results_received, medium } =
            self;
        match event {
            Received::Disconnected => {
                return (
                    Collected::Waiting(
                        ResultCollector {
                            pages,
                            thread_number,
                            results_received,
                            valid_results_received,
                            medium,
                        },
                    ),
                    effects,
                );
            },
            _ => {},
        }
        let results = results_received + 1;
        match medium {
            None => {
                effects.push(JobEffect::Progress);
                match event {
                    Received::Picture(p) => {
                        effects.push(JobEffect::Info(String::from_str("Received first image")));
                        if pages == 1 {
                            effects.push(JobEffect::Closed);
                            (Collected::Done(p), effects)
                        } else {
                            (
                                Collected::Waiting(
                                    ResultCollector {
                                        pages,
                                        thread_number,
                                        results_received: results,
                                        valid_results_received,
                                        medium: Some(p),
                                    },
                                ),
                                effects,
                            )
                        }
                    },
                    _ => {
                        effects.push(
                            JobEffect::Info(
                                two_numbered("None ", results as u64, " / ", thread_number as u64),
                            ),
                        );
                        (
                            Collected::Waiting(
                                ResultCollector {
                                    pages,
                                    thread_number,
                                    results_received: results,
                                    valid_results_received,
                                    medium: None,
                                },
                            ),
                            effects,
                        )
                    },
                }
            },
            Some(m) => {
                let mut m = m;
                let mut valid = valid_results_received;
                match event {
                    Received::Picture(p) => {
                        accumulate(&p, valid, &mut m);
                        valid = valid + 1;
                    },
                    _ => {},
                }
                effects.push(
                    JobEffect::Info(two_numbered("Some ", results as u64, " / ", thread_number as u64)),
                );
                effects.push(JobEffect::Progress);
                if results == thread_number {
                    effects.push(JobEffect::Save { path: String::from_str("./result.jpeg") });
                    (Collected::Done(m), effects)
                } else {
                    (
                        Collected::Waiting(
                            ResultCollector {
                                pages,
                                thread_number,
                                results_received: results,
                                valid_results_received: valid,
                                medium: Some(m),
                            },
                        ),
                        effects,
                    )
                }
            },
        }
    }
}

} // verus!
