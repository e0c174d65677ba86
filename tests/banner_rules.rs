use wish_sim::{Banner, ConfigError, PityModel};

fn soft_hard(soft_pity: u16, hard_pity: u16, soft_rate: u16) -> Banner {
    Banner { pity_model: PityModel::SoftHard { soft_pity, hard_pity, soft_rate }, ..Banner::default() }
}

#[test]
fn default_banner_fields() {
    let b = Banner::default();
    assert_eq!(b.focus_sizes, [1, 0, 3, 0]);
    assert_eq!(b.five_rate, 6);
    assert_eq!(b.four_rate, 51);
    assert_eq!(b.split_rates, (55, 45));
    assert_eq!(b.five_pity, 73);
    assert_eq!(b.four_pity, 8);
    assert!(!b.epitomized_path);
    assert!(!b.capturing_radiance);
    assert_eq!(b.pity_model, PityModel::Escalating);
    assert_eq!(b.validate(), Ok(()));
}

#[test]
fn split_must_sum_to_hundred() {
    let b = Banner { split_rates: (50, 40), ..Banner::default() };
    assert_eq!(b.validate(), Err(ConfigError::SplitNotHundred));
    let b = Banner { split_rates: (100, 0), ..Banner::default() };
    assert_eq!(b.validate(), Ok(()));
    let b = Banner { split_rates: (0, 100), ..Banner::default() };
    assert_eq!(b.validate(), Ok(()));
}

#[test]
fn negative_focus_size_is_refused() {
    let b = Banner { focus_sizes: [1, 0, -1, 0], ..Banner::default() };
    assert_eq!(b.validate(), Err(ConfigError::NegativeFocusSize));
}

#[test]
fn split_error_comes_before_focus_error() {
    let b = Banner { focus_sizes: [-1, 0, 0, 0], split_rates: (1, 1), ..Banner::default() };
    assert_eq!(b.validate(), Err(ConfigError::SplitNotHundred));
}

#[test]
fn rates_over_certainty_are_refused() {
    let b = Banner { five_rate: 500, four_rate: 501, ..Banner::default() };
    assert_eq!(b.validate(), Err(ConfigError::RatesTooHigh));
    let b = Banner { five_rate: 500, four_rate: 500, ..Banner::default() };
    assert_eq!(b.validate(), Ok(()));
}

#[test]
fn soft_pity_after_hard_pity_is_refused() {
    assert_eq!(soft_hard(91, 90, 300).validate(), Err(ConfigError::PityOutOfOrder));
    assert_eq!(soft_hard(90, 90, 300).validate(), Ok(()));
}

#[test]
fn escalating_rates() {
    let b = Banner::default();
    assert_eq!(b.top_rate_at(1), 6);
    assert_eq!(b.top_rate_at(73), 6);
    assert_eq!(b.top_rate_at(74), 66);
    assert_eq!(b.top_rate_at(89), 966);
    assert_eq!(b.top_rate_at(90), 1026);
    assert_eq!(b.mid_rate_at(8), 51);
    assert_eq!(b.mid_rate_at(9), 561);
    assert_eq!(b.mid_rate_at(10), 1071);
}

#[test]
fn soft_hard_rates() {
    let b = soft_hard(74, 90, 320);
    assert_eq!(b.top_rate_at(73), 6);
    assert_eq!(b.top_rate_at(74), 320);
    assert_eq!(b.top_rate_at(89), 320);
    assert_eq!(b.top_rate_at(90), 1000);
    assert_eq!(b.top_rate_at(500), 1000);
    assert_eq!(b.mid_rate_at(9), 561);
}

#[test]
fn escalating_rate_of_largest_counter() {
    let b = Banner { five_rate: u16::MAX, five_pity: 0, ..Banner::default() };
    let expected = u16::MAX as u64 + u32::MAX as u64 * 10 * u16::MAX as u64;
    assert_eq!(b.top_rate_at(u32::MAX), expected);
}

#[test]
fn soft_rate_over_certainty_is_refused() {
    assert_eq!(soft_hard(74, 90, 950).validate(), Err(ConfigError::RatesTooHigh));
    assert_eq!(soft_hard(74, 90, 949).validate(), Ok(()));
}
