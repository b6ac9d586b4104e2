//! The settings of the core: lockout, one-time codes, tokens and throttles.
//!
//! Each set has its defaults; a loader hands in what it found and the
//! defaults fill the rest. All times are in seconds.

use vstd::prelude::*;

verus! {

/// When repeated wrong passwords lock an account.
#[derive(Debug, Clone, Copy)]
pub struct LoginLimitConfig {
    /// Failures within the window from which the account is locked.
    pub max_attempts: i32,
    /// The length of the trailing window, in seconds.
    pub lockout_secs: i64,
}

impl LoginLimitConfig {
    /// The settings found, with 5 attempts and 300 seconds where none was.
    pub fn from_parsed(max_attempts: Option<i32>, lockout_secs: Option<i64>) -> (config: Self)
        ensures
            config.max_attempts == match max_attempts {
                Some(n) => n,
                None => 5i32,
            },
            config.lockout_secs == match lockout_secs {
                Some(n) => n,
                None => 300i64,
            },
    {
        LoginLimitConfig {
            max_attempts: match max_attempts {
                Some(n) => n,
                None => 5,
            },
            lockout_secs: match lockout_secs {
                Some(n) => n,
                None => 300,
            },
        }
    }

    /// Whether an attempt at `attempt_time` still counts at `now`: it lies
    /// less than the window back.
    pub open spec fn counts(&self, attempt_time: i64, now: i64) -> bool {
        attempt_time > now - self.lockout_secs
    }

    /// Whether `recent_failures` failures within the window lock the account.
    pub open spec fn locks(&self, recent_failures: int) -> bool {
        recent_failures >= self.max_attempts
    }

    /// Whether an attempt at `attempt_time` still counts at `now`.
    pub fn in_window(&self, attempt_time: i64, now: i64) -> (b: bool)
        ensures
            b == self.counts(attempt_time, now),
    {
        attempt_time as i128 > now as i128 - self.lockout_secs as i128
    }

    /// Whether `recent_failures` failures within the window lock the account.
    pub fn is_locked(&self, recent_failures: i64) -> (b: bool)
        ensures
            b == self.locks(recent_failures as int),
    {
        recent_failures >= self.max_attempts as i64
    }
}

/// How often a reset code may be asked for, and how long one lasts.
#[derive(Debug, Clone, Copy)]
pub struct OtpConfig {
    pub limit_per_hour: i64,
    pub min_interval_secs: i64,
    pub expiry_minutes: i64,
}

impl OtpConfig {
    /// The settings found, with 5 an hour, 60 seconds apart and 10 minutes
    /// of validity where none was.
    pub fn from_parsed(
        limit_per_hour: Option<i64>,
        min_interval_secs: Option<i64>,
        expiry_minutes: Option<i64>,
    ) -> (config: Self)
        ensures
            config.limit_per_hour == match limit_per_hour {
                Some(n) => n,
                None => 5i64,
            },
            config.min_interval_secs == match min_interval_secs {
                Some(n) => n,
                None => 60i64,
            },
            config.expiry_minutes == match expiry_minutes {
                Some(n) => n,
                None => 10i64,
            },
    {
        OtpConfig {
            limit_per_hour: match limit_per_hour {
                Some(n) => n,
                None => 5,
            },
            min_interval_secs: match min_interval_secs {
                Some(n) => n,
                None => 60,
            },
            expiry_minutes: match expiry_minutes {
                Some(n) => n,
                None => 10,
            },
        }
    }

    /// The second at which a code created at `created_at` stops being valid.
    pub open spec fn expiry_of(&self, created_at: i64) -> int {
        created_at + self.expiry_minutes * 60
    }

    /// The first second at which a code may follow one sent at `last_sent_at`.
    pub open spec fn next_allowed(&self, last_sent_at: i64) -> int {
        last_sent_at + self.min_interval_secs
    }

    /// Whether a code created at `created_at` is past its validity at `now`.
    pub fn is_expired(&self, created_at: i64, now: i64) -> (b: bool)
        ensures
            b == (now > self.expiry_of(created_at)),
    {
        now as i128 > created_at as i128 + self.expiry_minutes as i128 * 60
    }

    /// Whether the minimum interval has passed since the last code.
    pub fn can_resend(&self, last_sent_at: i64, now: i64) -> (b: bool)
        ensures
            b == (now >= self.next_allowed(last_sent_at)),
    {
        now as i128 >= last_sent_at as i128 + self.min_interval_secs as i128
    }

    /// Whether `count_last_hour` requests reach the hourly limit.
    pub fn exceeds_hourly_limit(&self, count_last_hour: i64) -> (b: bool)
        ensures
            b == (count_last_hour >= self.limit_per_hour),
    {
        count_last_hour >= self.limit_per_hour
    }

    /// The expiry of a code created at `now`, where it fits the clock's range.
    pub fn expires_at(&self, now: i64) -> (at: Option<i64>)
        ensures
            match at {
                Some(t) => t == self.expiry_of(now),
                None => !(i64::MIN <= self.expiry_of(now) <= i64::MAX),
            },
    {
        let wide: i128 = now as i128 + self.expiry_minutes as i128 * 60;
        if wide < i64::MIN as i128 || wide > i64::MAX as i128 {
            None
        } else {
            Some(wide as i64)
        }
    }
}

/// The security settings of the server.
#[derive(Debug)]
pub struct SecurityConfig {
    pub jwt_secret: String,
    pub jwt_expiration_hours: u64,
    pub password_min_length: usize,
    pub password_max_length: usize,
    pub rate_limit_auth_requests: u32,
    pub rate_limit_auth_window_minutes: u64,
    pub rate_limit_general_requests: u32,
    pub rate_limit_general_window_minutes: u64,
    pub enable_security_headers: bool,
    pub enable_rate_limiting: bool,
    pub log_security_events: bool,
}

/// The settings that a loader found; `None` where a setting was absent.
#[derive(Debug)]
pub struct SecuritySettings {
    pub jwt_expiration_hours: Option<u64>,
    pub password_min_length: Option<usize>,
    pub password_max_length: Option<usize>,
    pub rate_limit_auth_requests: Option<u32>,
    pub rate_limit_auth_window_minutes: Option<u64>,
    pub rate_limit_general_requests: Option<u32>,
    pub rate_limit_general_window_minutes: Option<u64>,
    pub enable_security_headers: Option<bool>,
    pub enable_rate_limiting: Option<bool>,
    pub log_security_events: Option<bool>,
}

/// The value found, or the default.
pub open spec fn or_default<T>(found: Option<T>, default: T) -> T {
    match found {
        Some(v) => v,
        None => default,
    }
}

fn found_or<T>(found: Option<T>, default: T) -> (v: T)
    ensures
        v == or_default(found, default),
{
    match found {
        Some(v) => v,
        None => default,
    }
}

impl SecurityConfig {
    /// Whether all but the secret have their default values.
    pub open spec fn has_default_limits(&self) -> bool {
        &&& self.jwt_expiration_hours == 24
        &&& self.password_min_length == 8
        &&& self.password_max_length == 128
        &&& self.rate_limit_auth_requests == 5
        &&& self.rate_limit_auth_window_minutes == 5
        &&& self.rate_limit_general_requests == 100
        &&& self.rate_limit_general_window_minutes == 1
        &&& self.enable_security_headers
        &&& self.enable_rate_limiting
        &&& self.log_security_events
    }

    /// The settings found, under the given secret, with the defaults where
    /// none was.
    pub fn from_parsed(jwt_secret: String, found: SecuritySettings) -> (config: Self)
        ensures
            config.jwt_secret@ == jwt_secret@,
            config.jwt_expiration_hours == or_default(found.jwt_expiration_hours, 24),
            config.password_min_length == or_default(found.password_min_length, 8),
            config.password_max_length == or_default(found.password_max_length, 128),
            config.rate_limit_auth_requests == or_default(found.rate_limit_auth_requests, 5),
            config.rate_limit_auth_window_minutes == or_default(
                found.rate_limit_auth_window_minutes,
                5,
            ),
            config.rate_limit_general_requests == or_default(
                found.rate_limit_general_requests,
                100,
            ),
            config.rate_limit_general_window_minutes == or_default(
                found.rate_limit_general_window_minutes,
                1,
            ),
            config.enable_security_headers == or_default(found.enable_security_headers, true),
            config.enable_rate_limiting == or_default(found.enable_rate_limiting, true),
            config.log_security_events == or_default(found.log_security_events, true),
    {
        SecurityConfig {
            jwt_secret,
            jwt_expiration_hours: found_or(found.jwt_expiration_hours, 24),
            password_min_length: found_or(found.password_min_length, 8),
            password_max_length: found_or(found.password_max_length, 128),
            rate_limit_auth_requests: found_or(found.rate_limit_auth_requests, 5),
            rate_limit_auth_window_minutes: found_or(found.rate_limit_auth_window_minutes, 5),
            rate_limit_general_requests: found_or(found.rate_limit_general_requests, 100),
            rate_limit_general_window_minutes: found_or(
                found.rate_limit_general_window_minutes,
                1,
            ),
            enable_security_headers: found_or(found.enable_security_headers, true),
            enable_rate_limiting: found_or(found.enable_rate_limiting, true),
            log_security_events: found_or(found.log_security_events, true),
        }
    }

    /// Whether the environment's name says production. Without a name the
    /// environment is development.
    pub fn is_production(&self, environment: Option<&str>) -> (b: bool)
        ensures
            b == (environment matches Some(name) && name@ == "production"@),
    {
        match environment {
            Some(name) => name.to_string() == "production".to_string(),
            None => false,
        }
    }

    /// The window of the throttle on the authentication endpoints, in seconds.
    pub fn get_auth_rate_limit_window(&self) -> (secs: u64)
        requires
            self.rate_limit_auth_window_minutes * 60 <= u64::MAX,
        ensures
            secs == self.rate_limit_auth_window_minutes * 60,
    {
        self.rate_limit_auth_window_minutes * 60
    }

    /// The window of the general throttle, in seconds.
    pub fn get_general_rate_limit_window(&self) -> (secs: u64)
        requires
            self.rate_limit_general_window_minutes * 60 <= u64::MAX,
        ensures
            secs == self.rate_limit_general_window_minutes * 60,
    {
        self.rate_limit_general_window_minutes * 60
    }
}

impl Default for SecurityConfig {
    /// The defaults, under a secret that is for development only.
    fn default() -> (config: Self)
        ensures
            config.jwt_secret@ == "default-secret-change-in-production"@,
            config.has_default_limits(),
    {
        SecurityConfig {
            jwt_secret: "default-secret-change-in-production".to_string(),
            jwt_expiration_hours: 24,
            password_min_length: 8,
            password_max_length: 128,
            rate_limit_auth_requests: 5,
            rate_limit_auth_window_minutes: 5,
            rate_limit_general_requests: 100,
            rate_limit_general_window_minutes: 1,
            enable_security_headers: true,
            enable_rate_limiting: true,
            log_security_events: true,
        }
    }
}

} // verus!
