//! Operator-facing message tables.
//!
//! Pure presentation: a lookup from the configured language to the fixed
//! strings the binary prints.  Nothing here influences the supervisor's
//! control flow.

use crate::config::Language;
use vstd::prelude::*;

verus! {

/// The message table for one language.
#[derive(Debug)]
pub struct Locales {
    pub wizard_title: String,
    pub scan_msg: String,
    pub scan_fail: String,
    pub enter_ip_manual: String,
    pub select_net: String,
    pub selected_net_log: String,
    pub enter_ip_prompt: String,
    pub sleep_mins_prompt: String,
    pub grace_sec_prompt: String,
    pub wakeup_sec_prompt: String,
    pub scan_int_prompt: String,
    pub settings_saved: String,
    pub daemon_start: String,
    pub daemon_net: String,
    pub daemon_interval: String,
    pub conn_lost: String,
    pub conn_restored: String,
    pub no_light_sleep: String,
    pub waking_up: String,
    pub ctrl_title: String,
    pub ctrl_action: String,
    pub ctrl_pause: String,
    pub ctrl_resume: String,
    pub ctrl_kill: String,
    pub ctrl_exit: String,
    pub pause_prompt: String,
    pub pause_activated: String,
    pub pause_removed: String,
    pub process_killed: String,
}

impl Locales {
    /// The English table, field by field.
    pub open spec fn is_english(self) -> bool {
        &&& self.wizard_title@ == "\n🔧 --- PORTAL SETUP WIZARD ---"@
        &&& self.scan_msg@ == "🔍 Scanning networks..."@
        &&& self.scan_fail@ == "❌ No networks found."@
        &&& self.enter_ip_manual@ == "Enter Lighthouse IP Manually"@
        &&& self.select_net@ == "Select Network:"@
        &&& self.selected_net_log@ == "✅ Selected Network:"@
        &&& self.enter_ip_prompt@ == "Enter Lighthouse IP"@
        &&& self.sleep_mins_prompt@ == "Minutes to sleep without light?"@
        &&& self.grace_sec_prompt@ == "Grace period (sec) before sleep?"@
        &&& self.wakeup_sec_prompt@ == "Wait (sec) after waking up?"@
        &&& self.scan_int_prompt@ == "Scan interval (sec)?"@
        &&& self.settings_saved@ == "✅ Settings saved to /etc/portal_daemon/config.json!"@
        &&& self.daemon_start@ == "👻 Portal Daemon: START"@
        &&& self.daemon_net@ == "📡 Network:"@
        &&& self.daemon_interval@ == "⏱ Interval:"@
        &&& self.conn_lost@ == "⚠️  Connection lost. Waiting"@
        &&& self.conn_restored@ == "✅ Connection restored."@
        &&& self.no_light_sleep@ == "🌑 No light. Sleeping"@
        &&& self.waking_up@ == "☀️  Woke up. Waiting"@
        &&& self.ctrl_title@ == "\n🎮 --- PORTAL CONTROL ---"@
        &&& self.ctrl_action@ == "Action?"@
        &&& self.ctrl_pause@ == "⏸  PAUSE (Disable sleep for X mins)"@
        &&& self.ctrl_resume@ == "▶️  RESUME (Enable sleep mode)"@
        &&& self.ctrl_kill@ == "🛑  KILL Process"@
        &&& self.ctrl_exit@ == "❌  Exit"@
        &&& self.pause_prompt@ == "Pause for how many MINUTES?"@
        &&& self.pause_activated@ == "✅ Pause activated for"@
        &&& self.pause_removed@ == "✅ Pause removed."@
        &&& self.process_killed@ == "💀 Process stopped."@
    }

    /// The Russian table, field by field.
    pub open spec fn is_russian(self) -> bool {
        &&& self.wizard_title@ == "\n🔧 --- МАСТЕР НАСТРОЙКИ PORTAL ---"@
        &&& self.scan_msg@ == "🔍 Сканирую сети..."@
        &&& self.scan_fail@ == "❌ Сети не найдены."@
        &&& self.enter_ip_manual@ == "Ввести IP Маяка вручную"@
        &&& self.select_net@ == "Выбери сеть:"@
        &&& self.selected_net_log@ == "✅ Выбрана сеть:"@
        &&& self.enter_ip_prompt@ == "Введи IP Маяка"@
        &&& self.sleep_mins_prompt@ == "Сколько МИНУТ спать без света?"@
        &&& self.grace_sec_prompt@ == "Грейс-период (сек) перед сном?"@
        &&& self.wakeup_sec_prompt@ == "Ждать сек. после включения?"@
        &&& self.scan_int_prompt@ == "Интервал проверки (сек)?"@
        &&& self.settings_saved@ == "✅ Настройки сохранены в /etc/portal_daemon/config.json!"@
        &&& self.daemon_start@ == "👻 Portal Daemon: ЗАПУСК"@
        &&& self.daemon_net@ == "📡 Сеть:"@
        &&& self.daemon_interval@ == "⏱ Интервал:"@
        &&& self.conn_lost@ == "⚠️  Потеря связи. Ждем"@
        &&& self.conn_restored@ == "✅ Связь вернулась."@
        &&& self.no_light_sleep@ == "🌑 Света нет. Сон"@
        &&& self.waking_up@ == "☀️  Проснулись. Ждем"@
        &&& self.ctrl_title@ == "\n🎮 --- УПРАВЛЕНИЕ PORTAL ---"@
        &&& self.ctrl_action@ == "Действие?"@
        &&& self.ctrl_pause@ == "⏸  Поставить на ПАУЗУ"@
        &&& self.ctrl_resume@ == "▶️  Снять с паузы"@
        &&& self.ctrl_kill@ == "🛑  Убить процесс (Kill)"@
        &&& self.ctrl_exit@ == "❌  Выход"@
        &&& self.pause_prompt@ == "На сколько МИНУТ?"@
        &&& self.pause_activated@ == "✅ Пауза активирована на"@
        &&& self.pause_removed@ == "✅ Пауза снята."@
        &&& self.process_killed@ == "💀 Процесс остановлен."@
    }

    /// The message table for `lang`.
    pub fn new(lang: Language) -> (t: Self)
        ensures
            lang is En ==> t.is_english(),
            lang is Ru ==> t.is_russian(),
    {
        match lang {
            Language::En => Locales {
                wizard_title: String::from_str("\n🔧 --- PORTAL SETUP WIZARD ---"),
                scan_msg: String::from_str("🔍 Scanning networks..."),
                scan_fail: String::from_str("❌ No networks found."),
                enter_ip_manual: String::from_str("Enter Lighthouse IP Manually"),
                select_net: String::from_str("Select Network:"),
                selected_net_log: String::from_str("✅ Selected Network:"),
                enter_ip_prompt: String::from_str("Enter Lighthouse IP"),
                sleep_mins_prompt: String::from_str("Minutes to sleep without light?"),
                grace_sec_prompt: String::from_str("Grace period (sec) before sleep?"),
                wakeup_sec_prompt: String::from_str("Wait (sec) after waking up?"),
                scan_int_prompt: String::from_str("Scan interval (sec)?"),
                settings_saved: String::from_str(
                    "✅ Settings saved to /etc/portal_daemon/config.json!",
                ),
                daemon_start: String::from_str("👻 Portal Daemon: START"),
                daemon_net: String::from_str("📡 Network:"),
                daemon_interval: String::from_str("⏱ Interval:"),
                conn_lost: String::from_str("⚠️  Connection lost. Waiting"),
                conn_restored: String::from_str("✅ Connection restored."),
                no_light_sleep: String::from_str("🌑 No light. Sleeping"),
                waking_up: String::from_str("☀️  Woke up. Waiting"),
                ctrl_title: String::from_str("\n🎮 --- PORTAL CONTROL ---"),
                ctrl_action: String::from_str("Action?"),
                ctrl_pause: String::from_str("⏸  PAUSE (Disable sleep for X mins)"),
                ctrl_resume: String::from_str("▶️  RESUME (Enable sleep mode)"),
                ctrl_kill: String::from_str("🛑  KILL Process"),
                ctrl_exit: String::from_str("❌  Exit"),
                pause_prompt: String::from_str("Pause for how many MINUTES?"),
                pause_activated: String::from_str("✅ Pause activated for"),
                pause_removed: String::from_str("✅ Pause removed."),
                process_killed: String::from_str("💀 Process stopped."),
            },
            Language::Ru => Locales {
                wizard_title: String::from_str("\n🔧 --- МАСТЕР НАСТРОЙКИ PORTAL ---"),
                scan_msg: String::from_str("🔍 Сканирую сети..."),
                scan_fail: String::from_str("❌ Сети не найдены."),
                enter_ip_manual: String::from_str("Ввести IP Маяка вручную"),
                select_net: String::from_str("Выбери сеть:"),
                selected_net_log: String::from_str("✅ Выбрана сеть:"),
                enter_ip_prompt: String::from_str("Введи IP Маяка"),
                sleep_mins_prompt: String::from_str("Сколько МИНУТ спать без света?"),
                grace_sec_prompt: String::from_str("Грейс-период (сек) перед сном?"),
                wakeup_sec_prompt: String::from_str("Ждать сек. после включения?"),
                scan_int_prompt: String::from_str("Интервал проверки (сек)?"),
                settings_saved: String::from_str(
                    "✅ Настройки сохранены в /etc/portal_daemon/config.json!",
                ),
                daemon_start: String::from_str("👻 Portal Daemon: ЗАПУСК"),
                daemon_net: String::from_str("📡 Сеть:"),
                daemon_interval: String::from_str("⏱ Интервал:"),
                conn_lost: String::from_str("⚠️  Потеря связи. Ждем"),
                conn_restored: String::from_str("✅ Связь вернулась."),
                no_light_sleep: String::from_str("🌑 Света нет. Сон"),
                waking_up: String::from_str("☀️  Проснулись. Ждем"),
                ctrl_title: String::from_str("\n🎮 --- УПРАВЛЕНИЕ PORTAL ---"),
                ctrl_action: String::from_str("Действие?"),
                ctrl_pause: String::from_str("⏸  Поставить на ПАУЗУ"),
                ctrl_resume: String::from_str("▶️  Снять с паузы"),
                ctrl_kill: String::from_str("🛑  Убить процесс (Kill)"),
                ctrl_exit: String::from_str("❌  Выход"),
                pause_prompt: String::from_str("На сколько МИНУТ?"),
                pause_activated: String::from_str("✅ Пауза активирована на"),
                pause_removed: String::from_str("✅ Пауза снята."),
                process_killed: String::from_str("💀 Процесс остановлен."),
            },
        }
    }
}

} // verus!
