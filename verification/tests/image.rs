use nanocl::error::HttpError;
use nanocl::image::{
    calculate_percentage, progress_amount, removal_confirmed, removal_prompt, LayerBoard, PullInfo,
    PullStep,
};

fn info(status: &str, id: &str, current: Option<i64>, total: Option<i64>) -> PullInfo {
    PullInfo {
        error: None,
        status: Some(status.to_string()),
        id: Some(id.to_string()),
        current,
        total,
    }
}

#[test]
fn percentage_is_rounded_down_and_capped() {
    assert_eq!(calculate_percentage(0, 0), 0);
    assert_eq!(calculate_percentage(5, 0), 0);
    assert_eq!(calculate_percentage(0, 10), 0);
    assert_eq!(calculate_percentage(1, 3), 33);
    assert_eq!(calculate_percentage(2, 3), 66);
    assert_eq!(calculate_percentage(999, 1000), 99);
    assert_eq!(calculate_percentage(10, 10), 100);
    assert_eq!(calculate_percentage(11, 10), 100);
    assert_eq!(calculate_percentage(u64::MAX, 1), 100);
    assert_eq!(calculate_percentage(u64::MAX - 1, u64::MAX), 99);
    assert_eq!(calculate_percentage(u64::MAX / 2, u64::MAX), 49);
}

#[test]
fn missing_or_negative_amount_is_zero() {
    assert_eq!(progress_amount(None), 0);
    assert_eq!(progress_amount(Some(-1)), 0);
    assert_eq!(progress_amount(Some(i64::MIN)), 0);
    assert_eq!(progress_amount(Some(0)), 0);
    assert_eq!(progress_amount(Some(42)), 42);
    assert_eq!(progress_amount(Some(i64::MAX)), i64::MAX as u64);
}

#[test]
fn layer_gets_a_bar_when_it_first_moves() {
    let mut board = LayerBoard::new();
    assert!(!board.knows("l1"));
    let step = board.step("busybox", &info("Pulling fs layer", "l1", None, None)).unwrap();
    assert_eq!(
        step,
        PullStep {
            fresh: true,
            position: Some(0),
            print: None,
            message: Some("[l1] Pulling fs layer".to_string()),
        }
    );
    assert!(board.knows("l1"));
    let step = board.step("busybox", &info("Downloading", "l1", Some(50), Some(200))).unwrap();
    assert_eq!(
        step,
        PullStep {
            fresh: false,
            position: Some(25),
            print: None,
            message: Some("[l1] Downloading".to_string()),
        }
    );
    let step = board.step("busybox", &info("Download complete", "l1", None, None)).unwrap();
    assert_eq!(
        step,
        PullStep {
            fresh: false,
            position: Some(100),
            print: None,
            message: Some("[l1] Download complete".to_string()),
        }
    );
    let step = board.step("busybox", &info("Extracting", "l1", Some(-5), Some(10))).unwrap();
    assert_eq!(step.position, Some(0));
    assert!(!step.fresh);
    let step = board.step("busybox", &info("Pull complete", "l1", None, None)).unwrap();
    assert_eq!(
        step,
        PullStep {
            fresh: false,
            position: None,
            print: None,
            message: Some("[l1] Pull complete".to_string()),
        }
    );
}

#[test]
fn status_of_unknown_layer_is_printed() {
    let mut board = LayerBoard::new();
    let step = board.step("busybox", &info("Pulling from library/busybox", "1.26.0", None, None)).unwrap();
    assert_eq!(
        step,
        PullStep {
            fresh: false,
            position: None,
            print: Some("Pulling from library/busybox".to_string()),
            message: None,
        }
    );
    assert!(!board.knows("1.26.0"));
    let step = board.step("busybox", &info("Download complete", "l9", None, None)).unwrap();
    assert_eq!(step, PullStep { fresh: false, position: None, print: None, message: None });
    let bare = PullInfo { error: None, status: None, id: None, current: None, total: None };
    let step = board.step("busybox", &bare).unwrap();
    assert_eq!(
        step,
        PullStep { fresh: false, position: None, print: Some(String::new()), message: None }
    );
    let extracting = PullInfo {
        error: None,
        status: Some("Extracting".to_string()),
        id: None,
        current: Some(1),
        total: Some(2),
    };
    let step = board.step("busybox", &extracting).unwrap();
    assert_eq!(
        step,
        PullStep {
            fresh: true,
            position: Some(50),
            print: None,
            message: Some("[] Extracting".to_string()),
        }
    );
    assert!(board.knows(""));
}

#[test]
fn failed_pull_is_reported() {
    let mut board = LayerBoard::new();
    let failed = PullInfo {
        error: Some("manifest unknown".to_string()),
        status: Some("Downloading".to_string()),
        id: Some("l1".to_string()),
        current: None,
        total: None,
    };
    assert_eq!(
        board.step("busybox:1.26.0", &failed),
        Err(HttpError {
            status: 500,
            msg: "Error while downloading image busybox:1.26.0 got error manifest unknown".to_string(),
        })
    );
    assert!(!board.knows("l1"));
}

#[test]
fn removal_prompt_lists_the_images() {
    let names = |list: &[&str]| list.iter().map(|name| name.to_string()).collect::<Vec<String>>();
    assert_eq!(removal_prompt(&names(&["busybox:1.26.0"])), "Delete cargo images busybox:1.26.0?");
    assert_eq!(removal_prompt(&names(&["a", "b", "c"])), "Delete cargo images a,b,c?");
    assert_eq!(removal_prompt(&names(&[])), "Delete cargo images ?");
    assert_eq!(removal_prompt(&names(&["", ""])), "Delete cargo images ,?");
}

#[test]
fn removal_needs_consent() {
    assert!(removal_confirmed(true, None));
    assert!(removal_confirmed(true, Some(false)));
    assert!(removal_confirmed(false, Some(true)));
    assert!(!removal_confirmed(false, Some(false)));
    assert!(!removal_confirmed(false, None));
}
