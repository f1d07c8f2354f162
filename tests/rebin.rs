use vis_core::rebin::rebin_index;

fn rebin(vals: &[i64], m: usize) -> Vec<i64> {
    let mut out = vec![0i64; m];
    for (i, v) in vals.iter().enumerate() {
        out[rebin_index(i, vals.len(), m)] += v;
    }
    out
}

#[test]
fn rebin_index_values() {
    assert_eq!(rebin_index(0, 400, 20), 0);
    assert_eq!(rebin_index(19, 400, 20), 0);
    assert_eq!(rebin_index(20, 400, 20), 1);
    assert_eq!(rebin_index(399, 400, 20), 19);
    // Widening: 3 source buckets spread over 7 targets.
    assert_eq!(rebin_index(1, 3, 7), 2);
    assert_eq!(rebin_index(2, 3, 7), 4);
}

#[test]
fn rebin_preserves_total_for_every_target_size() {
    for n in [100usize, 1000, 512, 1337] {
        let vals: Vec<i64> = (0..n as i64).collect();
        let total: i64 = vals.iter().sum();
        for m in [1usize, 7, 20, 50, n, 2 * n] {
            let out = rebin(&vals, m);
            assert_eq!(out.len(), m);
            assert_eq!(out.iter().sum::<i64>(), total);
        }
    }
}

#[test]
fn rebin_merges_adjacent_buckets() {
    assert_eq!(rebin(&[1, 2, 3, 4, 5, 6], 3), vec![3, 7, 11]);
    assert_eq!(rebin(&[1, 2, 3, 4, 5, 6], 4), vec![3, 3, 9, 6]);
}
