use vco::{avg, Sampler, AVG_BUF_SIZE};

#[test]
fn avg_of_identical_values() {
    for v in [0u16, 1, 1234, 3000, u16::MAX] {
        let mut buf = [v; AVG_BUF_SIZE];
        assert_eq!(avg(&mut buf), v as u32);
        assert_eq!(buf, [v; AVG_BUF_SIZE]);
    }
}

#[test]
fn avg_of_single_spike() {
    for k in [0u16, 1, 7, 2047] {
        let mut buf = [0u16; AVG_BUF_SIZE];
        buf[AVG_BUF_SIZE - 1] = 32 * k;
        assert_eq!(avg(&mut buf), k as u32);
    }
}

#[test]
fn avg_floors() {
    let mut buf = [0u16; AVG_BUF_SIZE];
    buf[0] = 31;
    assert_eq!(avg(&mut buf), 0);
    buf[1] = 1;
    assert_eq!(avg(&mut buf), 1);
    let mut ramp = [0u16; AVG_BUF_SIZE];
    for i in 0..AVG_BUF_SIZE {
        ramp[i] = i as u16;
    }
    assert_eq!(avg(&mut ramp), 15);
}

#[test]
fn sampler_reports_once_per_fill() {
    let mut s = Sampler::new();
    for _ in 0..AVG_BUF_SIZE - 1 {
        assert_eq!(s.push(3000), None);
    }
    assert_eq!(s.push(3000), Some(3000));
    for _ in 0..AVG_BUF_SIZE - 1 {
        assert_eq!(s.push(100), None);
    }
    assert_eq!(s.push(100), Some(100));
}

#[test]
fn sampler_mean_of_latest_fill() {
    let mut s = Sampler::new();
    for i in 0..AVG_BUF_SIZE {
        let r = s.push(if i == AVG_BUF_SIZE - 1 { 32 * 9 } else { 0 });
        if i < AVG_BUF_SIZE - 1 {
            assert_eq!(r, None);
        } else {
            assert_eq!(r, Some(9));
        }
    }
    let mut last = None;
    for i in 0..AVG_BUF_SIZE {
        last = s.push(2 * i as u16);
    }
    assert_eq!(last, Some(31));
}
