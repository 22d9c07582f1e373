use pinger::stats::summarize;

#[test]
fn statistics_scenario_five_sent_four_received() {
    // 5 sends, 4 matched replies at [10, 20, 30, 40] ms, 1 timeout.
    let summary = summarize(5, 0, &vec![10, 20, 30, 40]);
    assert_eq!(summary.transmitted, 5);
    assert_eq!(summary.received, 4);
    assert_eq!(summary.errors, 0);
    assert_eq!(summary.lost, 1);

    // packet loss = lost / transmitted = 0.20
    let loss = summary.lost as f64 / summary.transmitted as f64;
    assert_eq!(loss, 0.20);

    let rtt = summary.rtt.expect("samples were recorded");
    assert_eq!(rtt.count, 4);
    assert_eq!(rtt.min, 10);
    assert_eq!(rtt.max, 40);
    assert_eq!(rtt.sum, 100);

    // mean = 100 / 4 = 25, exactly
    assert_eq!(rtt.sum % rtt.count as u128, 0);
    assert_eq!(rtt.sum / rtt.count as u128, 25);

    // population variance = (4 * 3000 - 100^2) / 16 = 2000 / 16 = 125;
    // stddev = sqrt(125) = sqrt((15^2 + 5^2 + 5^2 + 15^2) / 4) ~ 11.18
    assert_eq!(rtt.variance_num, 2000);
    assert_eq!(rtt.variance_den, 16);
    let stddev = (rtt.variance_num as f64 / rtt.variance_den as f64).sqrt();
    assert!((stddev - 11.18).abs() < 0.005);
}

#[test]
fn no_samples_means_no_rtt_block() {
    let summary = summarize(3, 0, &Vec::new());
    assert_eq!(summary.transmitted, 3);
    assert_eq!(summary.received, 0);
    assert_eq!(summary.lost, 3);
    assert!(summary.rtt.is_none());
}

#[test]
fn single_sample() {
    let summary = summarize(1, 0, &vec![17]);
    let rtt = summary.rtt.expect("one sample");
    assert_eq!(rtt.count, 1);
    assert_eq!(rtt.min, 17);
    assert_eq!(rtt.max, 17);
    assert_eq!(rtt.sum, 17);
    assert_eq!(rtt.variance_num, 0);
    assert_eq!(rtt.variance_den, 1);
}

#[test]
fn equal_samples_have_zero_variance() {
    let summary = summarize(4, 0, &vec![25, 25, 25, 25]);
    let rtt = summary.rtt.expect("samples");
    assert_eq!(rtt.min, 25);
    assert_eq!(rtt.max, 25);
    assert_eq!(rtt.variance_num, 0);
    assert_eq!(rtt.variance_den, 16);
}

#[test]
fn errors_are_counted_apart_from_loss() {
    // A Time Exceeded event is an error, not a received reply.
    let summary = summarize(2, 1, &vec![30]);
    assert_eq!(summary.errors, 1);
    assert_eq!(summary.received, 1);
    assert_eq!(summary.lost, 1);
}
