//! What is recorded of a user when a session starts.
use vstd::prelude::*;
use vstd::string::StringExecFns;
use crate::text::{decimal, decimal_string};
use crate::time::Timestamp;

verus! {

#[derive(Debug)]
pub struct UserData {
    pub session_id: String,
    pub basic_info: BasicInfo,
    pub content: ContentPreferences,
    pub security: SecurityInfo,
    pub subscriptions: SubscriptionInfo,
}

#[derive(Debug)]
pub struct BasicInfo {
    pub id: String,
    pub email: String,
    pub status: String,
    pub account_type: String,
    pub last_login: Timestamp,
}

#[derive(Debug)]
pub struct ContentPreferences {
    pub theme: String,
    pub language: String,
    pub timezone: String,
    pub date_format: String,
}

#[derive(Debug)]
pub struct SecurityInfo {
    pub password: PasswordInfo,
    pub two_factor_auth: TwoFactorAuth,
}

#[derive(Debug)]
pub struct PasswordInfo {
    pub last_changed: Timestamp,
    pub requires_reset: bool,
}

#[derive(Debug)]
pub struct TwoFactorAuth {
    pub enabled: bool,
    pub method: String,
}

#[derive(Debug)]
pub struct SubscriptionInfo {
    pub premium_membership: PremiumMembership,
}

#[derive(Debug)]
pub struct PremiumMembership {
    pub active: bool,
    pub tier: String,
    pub start_date: String,
    pub renewal_date: String,
    pub payment_method: String,
}

/// A session of a user and when it was opened.
#[derive(Debug)]
pub struct SessionRecord {
    pub session_id: String,
    pub user_id: u64,
    pub timestamp: Timestamp,
}

impl ContentPreferences {
    /// The preferences that every user starts with.
    pub fn initial() -> (p: ContentPreferences)
        ensures
            p.theme@ == "dark"@,
            p.language@ == "en"@,
            p.timezone@ == "America/New_York"@,
            p.date_format@ == "MM/DD/YYYY"@,
    {
        ContentPreferences {
            theme: "dark".to_owned(),
            language: "en".to_owned(),
            timezone: "America/New_York".to_owned(),
            date_format: "MM/DD/YYYY".to_owned(),
        }
    }
}

impl TwoFactorAuth {
    /// The second factor that every user starts with.
    pub fn initial() -> (t: TwoFactorAuth)
        ensures
            t.enabled,
            t.method@ == "authenticator_app"@,
    {
        TwoFactorAuth { enabled: true, method: "authenticator_app".to_owned() }
    }
}

impl PremiumMembership {
    /// The membership that every user starts with, from the day `day` on.
    pub fn initial(day: &str) -> (m: PremiumMembership)
        ensures
            m.active,
            m.tier@ == "pro"@,
            m.start_date@ == day@,
            m.renewal_date@ == day@,
            m.payment_method@ == "credit_card"@,
    {
        PremiumMembership {
            active: true,
            tier: "pro".to_owned(),
            start_date: day.to_owned(),
            renewal_date: day.to_owned(),
            payment_method: "credit_card".to_owned(),
        }
    }
}

/// The id under which a user is recorded.
pub open spec fn record_id(user_id: u64) -> Seq<char> {
    "usr_"@ + decimal(user_id as nat)
}

impl UserData {
    /// What is recorded of the user `user_id` when the session
    /// `session_id` starts at `now`, on the day `day`.
    pub fn at_login(session_id: &str, user_id: u64, email: &str, now: Timestamp, day: &str) -> (data:
        UserData)
        ensures
            data.session_id@ == session_id@,
            data.basic_info.id@ == record_id(user_id),
            data.basic_info.email@ == email@,
            data.basic_info.status@ == "active"@,
            data.basic_info.account_type@ == "premium"@,
            data.basic_info.last_login == now,
            data.security.password.last_changed == now,
            !data.security.password.requires_reset,
            data.subscriptions.premium_membership.start_date@ == day@,
            data.subscriptions.premium_membership.renewal_date@ == day@,
    {
        let mut id = "usr_".to_owned();
        id.append(decimal_string(user_id).as_str());
        UserData {
            session_id: session_id.to_owned(),
            basic_info: BasicInfo {
                id,
                email: email.to_owned(),
                status: "active".to_owned(),
                account_type: "premium".to_owned(),
                last_login: now,
            },
            content: ContentPreferences::initial(),
            security: SecurityInfo {
                password: PasswordInfo { last_changed: now, requires_reset: false },
                two_factor_auth: TwoFactorAuth::initial(),
            },
            subscriptions: SubscriptionInfo { premium_membership: PremiumMembership::initial(day) },
        }
    }
}

} // verus!
