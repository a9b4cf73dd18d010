pub mod redemptions;
pub mod notifications;
pub mod subscription_end;
pub mod channel_point_redemption;
