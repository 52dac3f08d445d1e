use llm_bench_core::prompt::{
    choose_prefix, prompt_seed, wants_common_prefix, estimate_chars, filler_text, synthetic_tag_text, target_supported, PromptJob,
    PromptStep, Stage, MAX_ATTEMPTS,
};
use llm_bench_core::synthetic::{TokenDistribution, TokenDraw};
use llm_bench_core::text::decimal_text;
use rand_distr::{Distribution, Normal};

/// One sample, with the Gaussian case drawn as the benchmark draws it.
fn sample_tokens(dist: &mut TokenDistribution) -> usize {
    match dist.sample() {
        TokenDraw::Tokens(n) => n,
        TokenDraw::Gaussian { mean, stdev } => {
            let normal = Normal::new(mean as f64, stdev as f64).unwrap();
            let raw = normal.sample(&mut dist.rng).round() as usize;
            dist.settle_gaussian(raw)
        }
    }
}

#[test]
fn test_token_distribution_fixed() {
    let mut dist = TokenDistribution::new(100, None, None, None, 42);
    for _ in 0..10 {
        let sample = sample_tokens(&mut dist);
        assert_eq!(sample, 100, "Fixed distribution should always return average");
    }
}

#[test]
fn test_token_distribution_with_bounds() {
    let mut dist = TokenDistribution::new(100, None, Some(50), Some(150), 42);
    for _ in 0..100 {
        let sample = sample_tokens(&mut dist);
        assert!((50..=150).contains(&sample), "Sample {} outside bounds [50, 150]", sample);
    }
}

#[test]
fn test_token_distribution_gaussian() {
    let mut dist = TokenDistribution::new(100, Some(20), Some(50), Some(150), 42);
    let mut samples = Vec::new();
    for _ in 0..1000 {
        let sample = sample_tokens(&mut dist);
        assert!((50..=150).contains(&sample), "Sample {} outside bounds [50, 150]", sample);
        samples.push(sample);
    }
    let min_sample = *samples.iter().min().unwrap();
    let max_sample = *samples.iter().max().unwrap();
    assert!(max_sample > min_sample, "Gaussian distribution should produce varied samples");
}

#[test]
fn test_token_distribution_zero_stdev() {
    let mut dist = TokenDistribution::new(100, Some(0), None, None, 42);
    for _ in 0..10 {
        let sample = sample_tokens(&mut dist);
        assert_eq!(sample, 100, "Zero stdev distribution should always return average");
    }
}

#[test]
fn distribution_default_bounds() {
    let d = TokenDistribution::new(100, Some(30), None, None, 1);
    assert_eq!((d.min, d.max), (0, 250));
    let d = TokenDistribution::new(100, Some(10), None, Some(120), 1);
    assert_eq!((d.min, d.max), (50, 120));
    let d = TokenDistribution::new(100, None, Some(80), None, 1);
    assert_eq!((d.min, d.max), (80, 100));
    let mut d = TokenDistribution::new(100, Some(5), Some(70), Some(70), 1);
    assert_eq!(d.sample(), TokenDraw::Tokens(70));
    let mut d = TokenDistribution::new(100, Some(5), None, None, 1);
    assert_eq!(d.sample(), TokenDraw::Gaussian { mean: 100, stdev: 5 });
    assert_eq!(d.settle_gaussian(0), 75);
    assert_eq!(d.settle_gaussian(1000), 125);
    assert_eq!(d.settle_gaussian(101), 101);
}

#[test]
fn decimal_rendering() {
    for n in [0usize, 7, 10, 99, 100, 12345, usize::MAX] {
        assert_eq!(decimal_text(n), n.to_string());
    }
}

#[test]
fn prefix_choice() {
    assert_eq!(synthetic_tag_text(0), "[synthetic-0] ");
    assert_eq!(synthetic_tag_text(42), "[synthetic-42] ");
    let common = Some("lorem ipsum".to_string());
    assert_eq!(choose_prefix(true, &common, true, 3), "lorem ipsum");
    assert_eq!(choose_prefix(false, &common, true, 3), "[synthetic-3] ");
    assert_eq!(choose_prefix(false, &common, false, 3), "");
    assert_eq!(choose_prefix(true, &Some(String::new()), true, 5), "[synthetic-5] ");
    assert_eq!(choose_prefix(true, &Some(String::new()), false, 5), "");
    assert_eq!(choose_prefix(true, &None, true, 6), "[synthetic-6] ");
    assert_eq!(choose_prefix(true, &None, false, 6), "");
}

#[test]
fn character_estimate_matches_float_formula() {
    for remaining in [0usize, 1, 7, 50, 99, 1000, 123457] {
        for attempt in 1..=MAX_ATTEMPTS {
            let expected = ((remaining * 5) as f64 * 1.5 * attempt as f64) as usize;
            assert_eq!(estimate_chars(remaining, attempt), expected);
        }
    }
    assert!(target_supported(1_000_000));
    assert!(!target_supported(usize::MAX));
}

#[test]
fn filler_has_requested_length_and_is_reproducible() {
    for n in [0usize, 1, 10, 375, 2000] {
        let a = filler_text(42, n);
        assert_eq!(a.len(), n);
        assert!(a.is_ascii());
        assert_eq!(a, filler_text(42, n));
    }
    let long = filler_text(7, 500);
    assert_eq!(&long[..100], filler_text(7, 100));
}

/// A stand-in tokenizer: one token per started group of four characters.
fn count(text: &str) -> usize {
    (text.len() + 3) / 4
}

fn run(mut job: PromptJob) -> (String, PromptJob) {
    loop {
        match job.pending() {
            PromptStep::Count(t) => job.observe(count(&t)),
            PromptStep::Finished(t) => return (t, job),
        }
    }
}

#[test]
fn prompt_job_reaches_target() {
    let prefix = choose_prefix(false, &None, true, 0);
    let (text, _) = run(PromptJob::for_prompt(prefix, 50, 42));
    assert!(text.starts_with("[synthetic-0]"));
    assert_eq!(count(&text), 50);
    assert_eq!(text.len(), 200);
}

#[test]
fn prompt_job_truncates_long_prefix() {
    let (text, _) = run(PromptJob::for_prompt("abcdefghijklmnopqrstuvwxyz".to_string(), 3, 1));
    assert_eq!(text, "abcdefghijkl");
    let (text, _) = run(PromptJob::for_prompt("abc".to_string(), 0, 1));
    assert_eq!(text, "");
}

#[test]
fn prompt_job_without_prefix() {
    let (text, _) = run(PromptJob::for_prompt(String::new(), 30, 9));
    assert_eq!(count(&text), 30);
    assert!(!text.starts_with("[synthetic-"));
}

#[test]
fn common_prefix_job() {
    let (a, _) = run(PromptJob::for_common_prefix(25, 42));
    let (b, _) = run(PromptJob::for_common_prefix(25, 42));
    assert_eq!(a, b);
    assert_eq!(count(&a), 25);
}

#[test]
fn prompt_job_gives_up_after_three_attempts() {
    // A counter that never reaches the target.
    let mut job = PromptJob::for_prompt("[synthetic-1] ".to_string(), 10, 3);
    let mut counted = 0;
    let text = loop {
        match job.pending() {
            PromptStep::Count(_) => {
                counted += 1;
                job.observe(0)
            }
            PromptStep::Finished(t) => break t,
        }
    };
    assert!(matches!(job.stage, Stage::Exhausted { .. }));
    assert_eq!(counted, 1 + MAX_ATTEMPTS);
    assert!(text.starts_with("[synthetic-1] "));
    // Third attempt: 10 tokens * 5 * 1.5 * 3 characters of filler.
    assert_eq!(text.len(), "[synthetic-1] ".len() + 225);
}

#[test]
fn uniform_draws_vary_within_bounds() {
    let mut dist = TokenDistribution::new(100, None, Some(10), Some(20), 7);
    let mut seen = std::collections::BTreeSet::new();
    for _ in 0..200 {
        match dist.sample() {
            TokenDraw::Tokens(n) => {
                assert!((10..=20).contains(&n));
                seen.insert(n);
            }
            other => panic!("unexpected draw {:?}", other),
        }
    }
    assert!(seen.len() > 1);
    assert!(seen.contains(&10) || seen.contains(&20) || seen.len() > 5);
}

#[test]
fn zero_stdev_stays_within_bounds() {
    let mut d = TokenDistribution::new(100, Some(0), Some(200), Some(300), 42);
    assert_eq!(d.sample(), TokenDraw::Tokens(200));
    let mut d = TokenDistribution::new(100, Some(0), Some(10), Some(50), 42);
    assert_eq!(d.sample(), TokenDraw::Tokens(50));
    let mut d = TokenDistribution::new(100, Some(0), Some(10), Some(500), 42);
    assert_eq!(d.sample(), TokenDraw::Tokens(100));
}

#[test]
fn filler_uses_lorem_characters() {
    let text = filler_text(5, 3000);
    assert!(text.chars().all(|c| c.is_ascii_lowercase() || c == ' ' || c == '.'));
    let (prompt, _) = run(PromptJob::for_prompt(String::new(), 40, 11));
    assert!(prompt.chars().all(|c| c.is_ascii_lowercase() || c == ' ' || c == '.'));
    assert!(!prompt.starts_with("[synthetic-"));
}

#[test]
fn zero_stdev_with_inverted_bounds_gives_average() {
    let mut d = TokenDistribution::new(7, Some(0), Some(10), Some(5), 42);
    assert_eq!(d.sample(), TokenDraw::Tokens(7));
}

#[test]
fn per_prompt_seed_and_common_prefix_choice() {
    assert_eq!(prompt_seed(42, 3), 45);
    assert_eq!(prompt_seed(u64::MAX - 1, 1), u64::MAX);
    assert!(wants_common_prefix(1));
    assert!(!wants_common_prefix(0));
}
