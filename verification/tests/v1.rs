//! Feedback write position in the shared history.

use particula::feedback_slot;

/// A minimal ring of samples in the history's orientation: logical index 0
/// is the oldest sample, `capacity - 1` the freshest; `write_pos` is the
/// physical slot the next push overwrites.
struct Ring {
    buf: Vec<f32>,
    write_pos: usize,
}

impl Ring {
    fn new(capacity: usize) -> Self {
        Ring { buf: vec![0.0; capacity], write_pos: 0 }
    }
    fn push(&mut self, v: f32) {
        self.buf[self.write_pos] = v;
        self.write_pos = (self.write_pos + 1) % self.buf.len();
    }
    fn at(&self, logical: usize) -> f32 {
        self.buf[(self.write_pos + logical) % self.buf.len()]
    }
    fn add_at(&mut self, delay: usize, value: f32) {
        if let Some(idx) = feedback_slot(self.buf.len(), self.write_pos, delay) {
            self.buf[idx] += value;
        }
    }
}

#[test]
fn add_at_writes_behind_the_freshest_sample() {
    let mut h = Ring::new(16);
    for v in [1.0_f32, 2.0, 3.0, 4.0, 5.0] {
        h.push(v);
    }
    // After 5 pushes the freshest slot (index capacity-1) holds 5.0.
    assert_eq!(h.at(15), 5.0_f32);

    // delay 0 -> exactly the freshest slot (the pseudocode history[-1]).
    h.add_at(0, 10.0);
    assert_eq!(h.at(15), 15.0_f32);

    // delay 2 -> two slots behind the freshest: the 3.0 value.
    h.add_at(2, 20.0);
    assert_eq!(h.at(13), 23.0_f32);
    assert_eq!(h.at(15), 15.0_f32, "freshest untouched by delayed write");

    // Oversized delay clamps to the oldest slot (delay = cap-1) without
    // panicking; the freshest slot stays untouched.
    h.add_at(64, 5.0);
    assert_eq!(h.at(0), 5.0_f32);
    assert_eq!(h.at(15), 15.0_f32);
}
