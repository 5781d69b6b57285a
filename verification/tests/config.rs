use stayawake::config::{
    default_init_point, default_jump_by_pixel_max, default_jump_by_pixel_min,
    default_stayawake_interval, default_working_area, Config, ConfigError,
};
use stayawake::models::{InitPoint, WorkingArea};

#[test]
fn test_config_validate() {
    let config = Config {
        stayawake_interval: default_stayawake_interval(),
        jump_by_pixel_min: default_jump_by_pixel_min(),
        jump_by_pixel_max: default_jump_by_pixel_max(),
        init_point: default_init_point(),
        working_area: default_working_area(),
    };

    assert!(config.validate().is_ok());

    // ----------------

    let config = Config {
        stayawake_interval: default_stayawake_interval(),
        jump_by_pixel_min: 100,
        jump_by_pixel_max: 150,
        init_point: InitPoint { x: 0, y: 0 },
        working_area: WorkingArea {
            width: 50,
            height: 500,
        },
    };

    let result = config.validate();
    assert!(result.is_err());

    let result_err = result.unwrap_err();
    let ConfigError::InvalidProperty { property, message } = result_err;
    assert_eq!(property, "working_area");
    assert_eq!(
        message,
        "working_area cannot be equal or smaller than jump_by_pixel_max"
    );

    // ----------------

    let config = Config {
        stayawake_interval: default_stayawake_interval(),
        jump_by_pixel_min: 100,
        jump_by_pixel_max: 150,
        init_point: InitPoint { x: 0, y: 0 },
        working_area: WorkingArea {
            width: 500,
            height: 50,
        },
    };

    let result = config.validate();
    assert!(result.is_err());

    let result_err = result.unwrap_err();
    let ConfigError::InvalidProperty { property, message } = result_err;
    assert_eq!(property, "working_area");
    assert_eq!(
        message,
        "working_area cannot be equal or smaller than jump_by_pixel_max"
    );

    // ----------------

    let config = Config {
        stayawake_interval: default_stayawake_interval(),
        jump_by_pixel_min: 150,
        jump_by_pixel_max: 150,
        init_point: InitPoint { x: 0, y: 0 },
        working_area: WorkingArea {
            width: 150,
            height: 150,
        },
    };

    let result = config.validate();
    assert!(result.is_err());

    let result_err = result.unwrap_err();
    let ConfigError::InvalidProperty { property, message } = result_err;
    assert_eq!(property, "working_area");
    assert_eq!(
        message,
        "working_area cannot be equal or smaller than jump_by_pixel_max"
    );

    // ----------------

    let config = Config {
        stayawake_interval: default_stayawake_interval(),
        jump_by_pixel_min: 99,
        jump_by_pixel_max: 99,
        init_point: InitPoint { x: 0, y: 0 },
        working_area: WorkingArea {
            width: 100,
            height: 100,
        },
    };

    assert!(config.validate().is_ok());

    // ----------------

    let config = Config {
        stayawake_interval: default_stayawake_interval(),
        jump_by_pixel_min: 99,
        jump_by_pixel_max: 99,
        init_point: InitPoint { x: 50, y: 50 },
        working_area: WorkingArea {
            width: 100,
            height: 100,
        },
    };

    assert!(config.validate().is_ok());

    // ----------------

    let config = Config {
        stayawake_interval: default_stayawake_interval(),
        jump_by_pixel_min: 101,
        jump_by_pixel_max: 100,
        init_point: InitPoint { x: 0, y: 0 },
        working_area: WorkingArea {
            width: 150,
            height: 150,
        },
    };

    let result = config.validate();
    assert!(result.is_err());

    let result_err = result.unwrap_err();
    let ConfigError::InvalidProperty { property, message } = result_err;
    assert_eq!(property, "jump_by_pixel_min");
    assert_eq!(
        message,
        "jump_by_pixel_min cannot be bigger than jump_by_pixel_max"
    );

    // ----------------

    let config = Config {
        stayawake_interval: default_stayawake_interval(),
        jump_by_pixel_min: 0,
        jump_by_pixel_max: 1,
        init_point: InitPoint { x: 0, y: 0 },
        working_area: WorkingArea {
            width: 150,
            height: 150,
        },
    };

    let result = config.validate();
    assert!(result.is_err());

    let result_err = result.unwrap_err();
    let ConfigError::InvalidProperty { property, message } = result_err;
    assert_eq!(property, "jump_by_pixel_min");
    assert_eq!(message, "jump_by_pixel_min cannot be equal to zero");

    // ----------------

    let config = Config {
        stayawake_interval: default_stayawake_interval(),
        jump_by_pixel_min: 1,
        jump_by_pixel_max: 0,
        init_point: InitPoint { x: 0, y: 0 },
        working_area: WorkingArea {
            width: 150,
            height: 150,
        },
    };

    let result = config.validate();
    assert!(result.is_err());

    let result_err = result.unwrap_err();
    let ConfigError::InvalidProperty { property, message } = result_err;
    assert_eq!(property, "jump_by_pixel_max");
    assert_eq!(message, "jump_by_pixel_max cannot be equal to zero");

    // ----------------

    let config = Config {
        stayawake_interval: default_stayawake_interval(),
        jump_by_pixel_min: 100,
        jump_by_pixel_max: 100,
        init_point: InitPoint { x: 0, y: 0 },
        working_area: WorkingArea {
            width: 0,
            height: 0,
        },
    };

    let result = config.validate();
    assert!(result.is_err());

    let result_err = result.unwrap_err();
    let ConfigError::InvalidProperty { property, message } = result_err;
    assert_eq!(property, "working_area");
    assert_eq!(
        message,
        "working_area height or/and width cannot be equal to zero"
    );

    // ----------------

    let config = Config {
        stayawake_interval: default_stayawake_interval(),
        jump_by_pixel_min: 100,
        jump_by_pixel_max: 100,
        init_point: InitPoint { x: 0, y: 0 },
        working_area: WorkingArea {
            width: 0,
            height: 150,
        },
    };

    let result = config.validate();
    assert!(result.is_err());

    let result_err = result.unwrap_err();
    let ConfigError::InvalidProperty { property, message } = result_err;
    assert_eq!(property, "working_area");
    assert_eq!(
        message,
        "working_area height or/and width cannot be equal to zero"
    );
}

#[test]
fn defaults_are_the_documented_values() {
    assert_eq!(default_stayawake_interval(), 60);
    assert_eq!(default_jump_by_pixel_min(), 100);
    assert_eq!(default_jump_by_pixel_max(), 150);
    assert_eq!(default_init_point(), InitPoint { x: 0, y: 0 });
    assert_eq!(
        default_working_area(),
        WorkingArea {
            width: 1024,
            height: 768
        }
    );
}

#[test]
fn zero_height_alone_is_rejected() {
    let config = Config {
        stayawake_interval: 1,
        jump_by_pixel_min: 10,
        jump_by_pixel_max: 10,
        init_point: InitPoint { x: 0, y: 0 },
        working_area: WorkingArea {
            width: 150,
            height: 0,
        },
    };

    let result = config.validate();
    assert!(result.is_err());
    let ConfigError::InvalidProperty { property, message } = result.unwrap_err();
    assert_eq!(property, "working_area");
    assert_eq!(
        message,
        "working_area height or/and width cannot be equal to zero"
    );
}
