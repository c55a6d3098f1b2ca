//! Interface texts: Turkish is the source language, English the translation.
use vstd::prelude::*;
use vstd::string::*;
use crate::text::str_eq;

verus! {

broadcast use vstd::string::group_string_axioms;

/// English text of a Turkish interface text; texts without a translation
/// are shown as they are.
pub open spec fn english_of(key: Seq<char>) -> Seq<char> {
    if key == "Genel Bakış"@ {
        "Overview"@
    } else if key == "Farming"@ {
        "Farming"@
    } else if key == "Yetenekler"@ {
        "Skills"@
    } else if key == "Eşyalar"@ {
        "Items"@
    } else if key == "Captcha"@ {
        "Captcha"@
    } else if key == "OCR"@ {
        "OCR"@
    } else if key == "Çoklu Client"@ {
        "Multi-Client"@
    } else if key == "Ayarlar"@ {
        "Settings"@
    } else if key == "Kayıtlar"@ {
        "Logs"@
    } else if key == "↪ Çıkış Yap"@ {
        "↪ Logout"@
    } else if key == "‹ Küçült"@ {
        "‹ Minimize"@
    } else if key == "Dashboard"@ {
        "Dashboard"@
    } else if key == "Bağlı"@ {
        "Connected"@
    } else if key == "⊙  GİRİŞ YAP"@ {
        "⊙  LOGIN"@
    } else if key == "Lütfen tüm alanları doldurun."@ {
        "Please fill all fields."@
    } else if key == "Geçersiz kullanıcı adı veya şifre."@ {
        "Invalid username or password."@
    } else if key == "Beni Hatırla"@ {
        "Remember Me"@
    } else if key == "Hesabınız yok mu?"@ {
        "Don't have an account?"@
    } else if key == "Lisans satın al"@ {
        "Buy license"@
    } else if key == "K-BOT MINI"@ {
        "K-BOT MINI"@
    } else if key == "Durum: Aktif"@ {
        "Status: Active"@
    } else if key == "Durum: Durduruldu"@ {
        "Status: Stopped"@
    } else if key == "Büyüt"@ {
        "Maximize"@
    } else if key == "▶  BAŞLAT"@ {
        "▶  START"@
    } else if key == "⏹  DURDUR"@ {
        "⏹  STOP"@
    } else if key == "💾 Ayarları Kaydet"@ {
        "💾 Save Settings"@
    } else if key == "🎯 Test Tıklama"@ {
        "🎯 Test Click"@
    } else if key == "🗑 Temizle"@ {
        "🗑 Clear"@
    } else if key == "Aktif"@ {
        "Active"@
    } else if key == "Pasif"@ {
        "Inactive"@
    } else if key == "BOT DURUMU"@ {
        "BOT STATUS"@
    } else if key == "Sistem boşta"@ {
        "System idle"@
    } else if key == "Çalışıyor"@ {
        "Running"@
    } else if key == "İSTATİSTİKLER"@ {
        "STATISTICS"@
    } else if key == "Kırılan Taş"@ {
        "Mined Stones"@
    } else if key == "Iskalanan"@ {
        "Missed"@
    } else if key == "Çözülen Captcha"@ {
        "Solved Captchas"@
    } else if key == "Çalışma Süresi"@ {
        "Uptime"@
    } else if key == "SON SAATTEKİ PERFORMANS"@ {
        "PERFORMANCE (LAST HOUR)"@
    } else if key == "Kırılan Taş Grafiği"@ {
        "Mined Stones Graph"@
    } else if key == "MEVCUT HARİTA"@ {
        "CURRENT MAP"@
    } else if key == "Gerçek zamanlı bot durumu ve istatistikler"@ {
        "Real-time bot status and statistics"@
    } else if key == "son saatte"@ {
        "last hour"@
    } else if key == "Canlı"@ {
        "Live"@
    } else if key == "Veri toplanıyor..."@ {
        "Collecting data..."@
    } else if key == "Son dakika"@ {
        "Last minute"@
    } else if key == "Max:"@ {
        "Max:"@
    } else if key == "Farming Ayarları"@ {
        "Farming Settings"@
    } else if key == "Savaş, hedef ve bölge konfigürasyonu"@ {
        "Combat, target, and zone configuration"@
    } else if key == "HEDEF METİN TAŞLARI"@ {
        "TARGET METIN STONES"@
    } else if key == "EŞYA TOPLAMA"@ {
        "ITEM PICKUP"@
    } else if key == "Topla"@ {
        "Pickup"@
    } else if key == "Tuş"@ {
        "Key"@
    } else if key == "YETENEKLER & BUFFLAR"@ {
        "SKILLS & BUFFS"@
    } else if key == "Tuş ve Bekleme Süresi (sn)"@ {
        "Key and Cooldown (sec)"@
    } else if key == "İksir Otomasyonu"@ {
        "Potion Automation"@
    } else if key == "Eşya Filtresi"@ {
        "Item Filter"@
    } else if key == "Düşen eşya toplama kuralları"@ {
        "Looting rules"@
    } else if key == "Bu bölüm ileride eklenecektir."@ {
        "This section will be added later."@
    } else if key == "KULLANILACAK EŞYALAR"@ {
        "ITEMS TO USE"@
    } else if key == "Captcha İstatistikleri"@ {
        "Captcha Statistics"@
    } else if key == "Captcha çözüm başarı oranları"@ {
        "Captcha solve success rates"@
    } else if key == "BAŞARILI"@ {
        "SUCCESS"@
    } else if key == "BAŞARISIZ"@ {
        "FAILED"@
    } else if key == "TOPLAM"@ {
        "TOTAL"@
    } else if key == "Toplam captcha"@ {
        "Total captchas"@
    } else if key == "BAŞARI ORANI"@ {
        "SUCCESS RATE"@
    } else if key == "Başarı:"@ {
        "Success:"@
    } else if key == "Başarısız:"@ {
        "Failed:"@
    } else if key == "Captcha Loglarını Sıfırla"@ {
        "Reset Captcha Logs"@
    } else if key == "CAPTCHA ÇÖZÜCÜ"@ {
        "CAPTCHA SOLVER"@
    } else if key == "Sürücü (Motor)"@ {
        "Driver (Engine)"@
    } else if key == "Durdur (Alarm Çal)"@ {
        "Stop (Play Alarm)"@
    } else if key == "İstatistikler"@ {
        "Statistics"@
    } else if key == "Oran:"@ {
        "Rate:"@
    } else if key == "OCR & Kilit Ayarları"@ {
        "OCR & Lock Settings"@
    } else if key == "Captcha OCR alanı ve hedef kilit konfigürasyonu"@ {
        "Captcha OCR region and target lock configuration"@
    } else if key == "CAPTCHA OCR ALANI (SABİT)"@ {
        "CAPTCHA OCR REGION (FIXED)"@
    } else if key == "(Sabit)"@ {
        "(Fixed)"@
    } else if key == "OCR alanı bu koordinatlarda çalışır."@ {
        "OCR region works in these coordinates."@
    } else if key == "HEDEF KİLİT AYARLARI"@ {
        "TARGET LOCK SETTINGS"@
    } else if key == "📂 Şablon Seç"@ {
        "📂 Select Template"@
    } else if key == "⏳ 3:Sol üst  4:Sağ alt"@ {
        "⏳ 3:Top-Left  4:Bot-Right"@
    } else if key == "🔒 Bölge Seç (3/4)"@ {
        "🔒 Select Region (3/4)"@
    } else if key == "AÇIK METİN2 PENCERELERİ"@ {
        "OPEN METIN2 WINDOWS"@
    } else if key == "Mevcut açık ve bot tarafından yönetilen clientler."@ {
        "Currently open clients managed by the bot."@
    } else if key == "Çoklu Client Yönetimi"@ {
        "Multi-Client Management"@
    } else if key == "Birden fazla oyun penceresini yönetin"@ {
        "Manage multiple game windows"@
    } else if key == "CLIENT LİSTESİ"@ {
        "CLIENT LIST"@
    } else if key == "Henüz client eklenmedi."@ {
        "No clients added yet."@
    } else if key == "⏳ Shift ile seç..."@ {
        "⏳ Select with Shift..."@
    } else if key == "🎯 PID Seç"@ {
        "🎯 Select PID"@
    } else if key == "📺 Kapat"@ {
        "📺 Close"@
    } else if key == "📺 İzle"@ {
        "📺 Watch"@
    } else if key == "Fare:"@ {
        "Mouse:"@
    } else if key == "Yeni Client Ekle"@ {
        "Add New Client"@
    } else if key == "CANLI EKRAN —"@ {
        "LIVE SCREEN —"@
    } else if key == "Kamera verisi bekleniyor..."@ {
        "Waiting for camera data..."@
    } else if key == "Kaldır"@ {
        "Remove"@
    } else if key == "GÜVENLİK & ANTİ-TESPİT"@ {
        "SECURITY & ANTI-DETECT"@
    } else if key == "ⓘ Bu ayarlar bot tespitini zorlaştırmak için geliştirilmiştir."@ {
        "ⓘ These settings are developed to prevent bot detection."@
    } else if key == "Anti-Tespit Modu"@ {
        "Anti-Detect Mode"@
    } else if key == "İnsan davranışını taklit eder"@ {
        "Simulates human behavior"@
    } else if key == "Rastgele Gecikme"@ {
        "Random Delay"@
    } else if key == "Tıklamalar arasına rastgele ms ekler"@ {
        "Adds random ms between clicks"@
    } else if key == "OBS Bypass"@ {
        "OBS Bypass"@
    } else if key == "Yayın programlarında botu gizler"@ {
        "Hides bot in streaming software"@
    } else if key == "Donanım (Mouse) Sürücüsü"@ {
        "Hardware (Mouse) Driver"@
    } else if key == "MOLA SİSTEMİ"@ {
        "BREAK SYSTEM"@
    } else if key == "Her"@ {
        "Every"@
    } else if key == "dakikada bir"@ {
        "minutes"@
    } else if key == "dakika mola ver."@ {
        "minutes break."@
    } else if key == "BİLDİRİMLER"@ {
        "NOTIFICATIONS"@
    } else if key == "Uygulama İçi Uyarılar"@ {
        "In-App Alerts"@
    } else if key == "Sesli Bildirim"@ {
        "Sound Notification"@
    } else if key == "Telegram'a Bildir"@ {
        "Notify Telegram"@
    } else if key == "Webhook URL:"@ {
        "Webhook URL:"@
    } else if key == "Test Mesajı Gönder"@ {
        "Send Test Message"@
    } else if key == "KISAYOL TUŞLARI"@ {
        "HOTKEYS"@
    } else if key == "Bot Başlat/Durdur"@ {
        "Start/Stop Bot"@
    } else if key == "Log Temizle"@ {
        "Clear Logs"@
    } else if key == "Ekran Görüntüsü"@ {
        "Screenshot"@
    } else if key == "GÖRÜNÜM AYARI"@ {
        "APPEARANCE SETTINGS"@
    } else if key == "Tema Rengi"@ {
        "Theme Color"@
    } else if key == "GUI PENCERE BOYUTU"@ {
        "GUI WINDOW SIZE"@
    } else if key == "Hazır Şablonlar:"@ {
        "Presets:"@
    } else if key == "Özel Boyut:"@ {
        "Custom Size:"@
    } else if key == "Genişlik:"@ {
        "Width:"@
    } else if key == "Yükseklik:"@ {
        "Height:"@
    } else if key == "Uygula"@ {
        "Apply"@
    } else if key == "SİSTEM KAYITLARI"@ {
        "SYSTEM LOGS"@
    } else if key == "Kayıtlar (Logs)"@ {
        "Logs"@
    } else if key == "Gerçek zamanlı bot etkinlik akışı"@ {
        "Real-time bot event stream"@
    } else if key == "🔍 Log ara..."@ {
        "🔍 Search logs..."@
    } else if key == "Tümü"@ {
        "All"@
    } else if key == "Temizle"@ {
        "Clear"@
    } else if key == "kayıt"@ {
        "records"@
    } else if key == "Log kaydı bulunmadı."@ {
        "No logs found."@
    } else {
        key
    }
}

fn english(key: &str) -> (r: &str)
    ensures
        r@ == english_of(key@),
{
    if str_eq(key, "Genel Bakış") {
        "Overview"
    } else if str_eq(key, "Farming") {
        "Farming"
    } else if str_eq(key, "Yetenekler") {
        "Skills"
    } else if str_eq(key, "Eşyalar") {
        "Items"
    } else if str_eq(key, "Captcha") {
        "Captcha"
    } else if str_eq(key, "OCR") {
        "OCR"
    } else if str_eq(key, "Çoklu Client") {
        "Multi-Client"
    } else if str_eq(key, "Ayarlar") {
        "Settings"
    } else if str_eq(key, "Kayıtlar") {
        "Logs"
    } else if str_eq(key, "↪ Çıkış Yap") {
        "↪ Logout"
    } else if str_eq(key, "‹ Küçült") {
        "‹ Minimize"
    } else if str_eq(key, "Dashboard") {
        "Dashboard"
    } else if str_eq(key, "Bağlı") {
        "Connected"
    } else if str_eq(key, "⊙  GİRİŞ YAP") {
        "⊙  LOGIN"
    } else if str_eq(key, "Lütfen tüm alanları doldurun.") {
        "Please fill all fields."
    } else if str_eq(key, "Geçersiz kullanıcı adı veya şifre.") {
        "Invalid username or password."
    } else if str_eq(key, "Beni Hatırla") {
        "Remember Me"
    } else if str_eq(key, "Hesabınız yok mu?") {
        "Don't have an account?"
    } else if str_eq(key, "Lisans satın al") {
        "Buy license"
    } else if str_eq(key, "K-BOT MINI") {
        "K-BOT MINI"
    } else if str_eq(key, "Durum: Aktif") {
        "Status: Active"
    } else if str_eq(key, "Durum: Durduruldu") {
        "Status: Stopped"
    } else if str_eq(key, "Büyüt") {
        "Maximize"
    } else if str_eq(key, "▶  BAŞLAT") {
        "▶  START"
    } else if str_eq(key, "⏹  DURDUR") {
        "⏹  STOP"
    } else if str_eq(key, "💾 Ayarları Kaydet") {
        "💾 Save Settings"
    } else if str_eq(key, "🎯 Test Tıklama") {
        "🎯 Test Click"
    } else if str_eq(key, "🗑 Temizle") {
        "🗑 Clear"
    } else if str_eq(key, "Aktif") {
        "Active"
    } else if str_eq(key, "Pasif") {
        "Inactive"
    } else if str_eq(key, "BOT DURUMU") {
        "BOT STATUS"
    } else if str_eq(key, "Sistem boşta") {
        "System idle"
    } else if str_eq(key, "Çalışıyor") {
        "Running"
    } else if str_eq(key, "İSTATİSTİKLER") {
        "STATISTICS"
    } else if str_eq(key, "Kırılan Taş") {
        "Mined Stones"
    } else if str_eq(key, "Iskalanan") {
        "Missed"
    } else if str_eq(key, "Çözülen Captcha") {
        "Solved Captchas"
    } else if str_eq(key, "Çalışma Süresi") {
        "Uptime"
    } else if str_eq(key, "SON SAATTEKİ PERFORMANS") {
        "PERFORMANCE (LAST HOUR)"
    } else if str_eq(key, "Kırılan Taş Grafiği") {
        "Mined Stones Graph"
    } else if str_eq(key, "MEVCUT HARİTA") {
        "CURRENT MAP"
    } else if str_eq(key, "Gerçek zamanlı bot durumu ve istatistikler") {
        "Real-time bot status and statistics"
    } else if str_eq(key, "son saatte") {
        "last hour"
    } else if str_eq(key, "Canlı") {
        "Live"
    } else if str_eq(key, "Veri toplanıyor...") {
        "Collecting data..."
    } else if str_eq(key, "Son dakika") {
        "Last minute"
    } else if str_eq(key, "Max:") {
        "Max:"
    } else if str_eq(key, "Farming Ayarları") {
        "Farming Settings"
    } else if str_eq(key, "Savaş, hedef ve bölge konfigürasyonu") {
        "Combat, target, and zone configuration"
    } else if str_eq(key, "HEDEF METİN TAŞLARI") {
        "TARGET METIN STONES"
    } else if str_eq(key, "EŞYA TOPLAMA") {
        "ITEM PICKUP"
    } else if str_eq(key, "Topla") {
        "Pickup"
    } else if str_eq(key, "Tuş") {
        "Key"
    } else if str_eq(key, "YETENEKLER & BUFFLAR") {
        "SKILLS & BUFFS"
    } else if str_eq(key, "Tuş ve Bekleme Süresi (sn)") {
        "Key and Cooldown (sec)"
    } else if str_eq(key, "İksir Otomasyonu") {
        "Potion Automation"
    } else if str_eq(key, "Eşya Filtresi") {
        "Item Filter"
    } else if str_eq(key, "Düşen eşya toplama kuralları") {
        "Looting rules"
    } else if str_eq(key, "Bu bölüm ileride eklenecektir.") {
        "This section will be added later."
    } else if str_eq(key, "KULLANILACAK EŞYALAR") {
        "ITEMS TO USE"
    } else if str_eq(key, "Captcha İstatistikleri") {
        "Captcha Statistics"
    } else if str_eq(key, "Captcha çözüm başarı oranları") {
        "Captcha solve success rates"
    } else if str_eq(key, "BAŞARILI") {
        "SUCCESS"
    } else if str_eq(key, "BAŞARISIZ") {
        "FAILED"
    } else if str_eq(key, "TOPLAM") {
        "TOTAL"
    } else if str_eq(key, "Toplam captcha") {
        "Total captchas"
    } else if str_eq(key, "BAŞARI ORANI") {
        "SUCCESS RATE"
    } else if str_eq(key, "Başarı:") {
        "Success:"
    } else if str_eq(key, "Başarısız:") {
        "Failed:"
    } else if str_eq(key, "Captcha Loglarını Sıfırla") {
        "Reset Captcha Logs"
    } else if str_eq(key, "CAPTCHA ÇÖZÜCÜ") {
        "CAPTCHA SOLVER"
    } else if str_eq(key, "Sürücü (Motor)") {
        "Driver (Engine)"
    } else if str_eq(key, "Durdur (Alarm Çal)") {
        "Stop (Play Alarm)"
    } else if str_eq(key, "İstatistikler") {
        "Statistics"
    } else if str_eq(key, "Oran:") {
        "Rate:"
    } else if str_eq(key, "OCR & Kilit Ayarları") {
        "OCR & Lock Settings"
    } else if str_eq(key, "Captcha OCR alanı ve hedef kilit konfigürasyonu") {
        "Captcha OCR region and target lock configuration"
    } else if str_eq(key, "CAPTCHA OCR ALANI (SABİT)") {
        "CAPTCHA OCR REGION (FIXED)"
    } else if str_eq(key, "(Sabit)") {
        "(Fixed)"
    } else if str_eq(key, "OCR alanı bu koordinatlarda çalışır.") {
        "OCR region works in these coordinates."
    } else if str_eq(key, "HEDEF KİLİT AYARLARI") {
        "TARGET LOCK SETTINGS"
    } else if str_eq(key, "📂 Şablon Seç") {
        "📂 Select Template"
    } else if str_eq(key, "⏳ 3:Sol üst  4:Sağ alt") {
        "⏳ 3:Top-Left  4:Bot-Right"
    } else if str_eq(key, "🔒 Bölge Seç (3/4)") {
        "🔒 Select Region (3/4)"
    } else if str_eq(key, "AÇIK METİN2 PENCERELERİ") {
        "OPEN METIN2 WINDOWS"
    } else if str_eq(key, "Mevcut açık ve bot tarafından yönetilen clientler.") {
        "Currently open clients managed by the bot."
    } else if str_eq(key, "Çoklu Client Yönetimi") {
        "Multi-Client Management"
    } else if str_eq(key, "Birden fazla oyun penceresini yönetin") {
        "Manage multiple game windows"
    } else if str_eq(key, "CLIENT LİSTESİ") {
        "CLIENT LIST"
    } else if str_eq(key, "Henüz client eklenmedi.") {
        "No clients added yet."
    } else if str_eq(key, "⏳ Shift ile seç...") {
        "⏳ Select with Shift..."
    } else if str_eq(key, "🎯 PID Seç") {
        "🎯 Select PID"
    } else if str_eq(key, "📺 Kapat") {
        "📺 Close"
    } else if str_eq(key, "📺 İzle") {
        "📺 Watch"
    } else if str_eq(key, "Fare:") {
        "Mouse:"
    } else if str_eq(key, "Yeni Client Ekle") {
        "Add New Client"
    } else if str_eq(key, "CANLI EKRAN —") {
        "LIVE SCREEN —"
    } else if str_eq(key, "Kamera verisi bekleniyor...") {
        "Waiting for camera data..."
    } else if str_eq(key, "Kaldır") {
        "Remove"
    } else if str_eq(key, "GÜVENLİK & ANTİ-TESPİT") {
        "SECURITY & ANTI-DETECT"
    } else if str_eq(key, "ⓘ Bu ayarlar bot tespitini zorlaştırmak için geliştirilmiştir.") {
        "ⓘ These settings are developed to prevent bot detection."
    } else if str_eq(key, "Anti-Tespit Modu") {
        "Anti-Detect Mode"
    } else if str_eq(key, "İnsan davranışını taklit eder") {
        "Simulates human behavior"
    } else if str_eq(key, "Rastgele Gecikme") {
        "Random Delay"
    } else if str_eq(key, "Tıklamalar arasına rastgele ms ekler") {
        "Adds random ms between clicks"
    } else if str_eq(key, "OBS Bypass") {
        "OBS Bypass"
    } else if str_eq(key, "Yayın programlarında botu gizler") {
        "Hides bot in streaming software"
    } else if str_eq(key, "Donanım (Mouse) Sürücüsü") {
        "Hardware (Mouse) Driver"
    } else if str_eq(key, "MOLA SİSTEMİ") {
        "BREAK SYSTEM"
    } else if str_eq(key, "Her") {
        "Every"
    } else if str_eq(key, "dakikada bir") {
        "minutes"
    } else if str_eq(key, "dakika mola ver.") {
        "minutes break."
    } else if str_eq(key, "BİLDİRİMLER") {
        "NOTIFICATIONS"
    } else if str_eq(key, "Uygulama İçi Uyarılar") {
        "In-App Alerts"
    } else if str_eq(key, "Sesli Bildirim") {
        "Sound Notification"
    } else if str_eq(key, "Telegram'a Bildir") {
        "Notify Telegram"
    } else if str_eq(key, "Webhook URL:") {
        "Webhook URL:"
    } else if str_eq(key, "Test Mesajı Gönder") {
        "Send Test Message"
    } else if str_eq(key, "KISAYOL TUŞLARI") {
        "HOTKEYS"
    } else if str_eq(key, "Bot Başlat/Durdur") {
        "Start/Stop Bot"
    } else if str_eq(key, "Log Temizle") {
        "Clear Logs"
    } else if str_eq(key, "Ekran Görüntüsü") {
        "Screenshot"
    } else if str_eq(key, "GÖRÜNÜM AYARI") {
        "APPEARANCE SETTINGS"
    } else if str_eq(key, "Tema Rengi") {
        "Theme Color"
    } else if str_eq(key, "GUI PENCERE BOYUTU") {
        "GUI WINDOW SIZE"
    } else if str_eq(key, "Hazır Şablonlar:") {
        "Presets:"
    } else if str_eq(key, "Özel Boyut:") {
        "Custom Size:"
    } else if str_eq(key, "Genişlik:") {
        "Width:"
    } else if str_eq(key, "Yükseklik:") {
        "Height:"
    } else if str_eq(key, "Uygula") {
        "Apply"
    } else if str_eq(key, "SİSTEM KAYITLARI") {
        "SYSTEM LOGS"
    } else if str_eq(key, "Kayıtlar (Logs)") {
        "Logs"
    } else if str_eq(key, "Gerçek zamanlı bot etkinlik akışı") {
        "Real-time bot event stream"
    } else if str_eq(key, "🔍 Log ara...") {
        "🔍 Search logs..."
    } else if str_eq(key, "Tümü") {
        "All"
    } else if str_eq(key, "Temizle") {
        "Clear"
    } else if str_eq(key, "kayıt") {
        "records"
    } else if str_eq(key, "Log kaydı bulunmadı.") {
        "No logs found."
    } else {
        key
    }
}

/// An interface text in the language with index `dil_idx`: English for 1,
/// the Turkish source text for any other index.
pub fn t(key: &str, dil_idx: usize) -> (r: String)
    ensures
        r@ == (if dil_idx == 1 { english_of(key@) } else { key@ }),
{
    if dil_idx != 1 {
        return key.to_string();
    }
    english(key).to_string()
}

/// Length and first, second and last characters of texts of the table.
proof fn lemma_text_marks_0()
    ensures
        "Genel Bakış"@.len() == 11 && "Genel Bakış"@[0] == 'G' && "Genel Bakış"@[1] == 'e' && "Genel Bakış"@[10] == 'ş',
        "Overview"@.len() == 8 && "Overview"@[0] == 'O' && "Overview"@[1] == 'v' && "Overview"@[7] == 'w',
        "Farming"@.len() == 7 && "Farming"@[0] == 'F' && "Farming"@[1] == 'a' && "Farming"@[6] == 'g',
        "Yetenekler"@.len() == 10 && "Yetenekler"@[0] == 'Y' && "Yetenekler"@[1] == 'e' && "Yetenekler"@[9] == 'r',
        "Skills"@.len() == 6 && "Skills"@[0] == 'S' && "Skills"@[1] == 'k' && "Skills"@[5] == 's',
        "Eşyalar"@.len() == 7 && "Eşyalar"@[0] == 'E' && "Eşyalar"@[1] == 'ş' && "Eşyalar"@[6] == 'r',
        "Items"@.len() == 5 && "Items"@[0] == 'I' && "Items"@[1] == 't' && "Items"@[4] == 's',
        "Captcha"@.len() == 7 && "Captcha"@[0] == 'C' && "Captcha"@[1] == 'a' && "Captcha"@[6] == 'a',
        "OCR"@.len() == 3 && "OCR"@[0] == 'O' && "OCR"@[1] == 'C' && "OCR"@[2] == 'R',
        "Çoklu Client"@.len() == 12 && "Çoklu Client"@[0] == 'Ç' && "Çoklu Client"@[1] == 'o' && "Çoklu Client"@[11] == 't',
        "Multi-Client"@.len() == 12 && "Multi-Client"@[0] == 'M' && "Multi-Client"@[1] == 'u' && "Multi-Client"@[11] == 't',
        "Ayarlar"@.len() == 7 && "Ayarlar"@[0] == 'A' && "Ayarlar"@[1] == 'y' && "Ayarlar"@[6] == 'r',
        "Settings"@.len() == 8 && "Settings"@[0] == 'S' && "Settings"@[1] == 'e' && "Settings"@[7] == 's',
        "Kayıtlar"@.len() == 8 && "Kayıtlar"@[0] == 'K' && "Kayıtlar"@[1] == 'a' && "Kayıtlar"@[7] == 'r',
        "Logs"@.len() == 4 && "Logs"@[0] == 'L' && "Logs"@[1] == 'o' && "Logs"@[3] == 's',
        "↪ Çıkış Yap"@.len() == 11 && "↪ Çıkış Yap"@[0] == '↪' && "↪ Çıkış Yap"@[1] == ' ' && "↪ Çıkış Yap"@[10] == 'p',
        "↪ Logout"@.len() == 8 && "↪ Logout"@[0] == '↪' && "↪ Logout"@[1] == ' ' && "↪ Logout"@[7] == 't',
        "‹ Küçült"@.len() == 8 && "‹ Küçült"@[0] == '‹' && "‹ Küçült"@[1] == ' ' && "‹ Küçült"@[7] == 't',
        "‹ Minimize"@.len() == 10 && "‹ Minimize"@[0] == '‹' && "‹ Minimize"@[1] == ' ' && "‹ Minimize"@[9] == 'e',
        "Dashboard"@.len() == 9 && "Dashboard"@[0] == 'D' && "Dashboard"@[1] == 'a' && "Dashboard"@[8] == 'd',
        "Bağlı"@.len() == 5 && "Bağlı"@[0] == 'B' && "Bağlı"@[1] == 'a' && "Bağlı"@[4] == 'ı',
        "Connected"@.len() == 9 && "Connected"@[0] == 'C' && "Connected"@[1] == 'o' && "Connected"@[8] == 'd',
        "⊙  GİRİŞ YAP"@.len() == 12 && "⊙  GİRİŞ YAP"@[0] == '⊙' && "⊙  GİRİŞ YAP"@[1] == ' ' && "⊙  GİRİŞ YAP"@[11] == 'P',
        "⊙  LOGIN"@.len() == 8 && "⊙  LOGIN"@[0] == '⊙' && "⊙  LOGIN"@[1] == ' ' && "⊙  LOGIN"@[7] == 'N',
        "Lütfen tüm alanları doldurun."@.len() == 29 && "Lütfen tüm alanları doldurun."@[0] == 'L' && "Lütfen tüm alanları doldurun."@[1] == 'ü' && "Lütfen tüm alanları doldurun."@[28] == '.',
        "Please fill all fields."@.len() == 23 && "Please fill all fields."@[0] == 'P' && "Please fill all fields."@[1] == 'l' && "Please fill all fields."@[22] == '.',
        "Geçersiz kullanıcı adı veya şifre."@.len() == 34 && "Geçersiz kullanıcı adı veya şifre."@[0] == 'G' && "Geçersiz kullanıcı adı veya şifre."@[1] == 'e' && "Geçersiz kullanıcı adı veya şifre."@[33] == '.',
        "Invalid username or password."@.len() == 29 && "Invalid username or password."@[0] == 'I' && "Invalid username or password."@[1] == 'n' && "Invalid username or password."@[28] == '.',
        "Beni Hatırla"@.len() == 12 && "Beni Hatırla"@[0] == 'B' && "Beni Hatırla"@[1] == 'e' && "Beni Hatırla"@[11] == 'a',
        "Remember Me"@.len() == 11 && "Remember Me"@[0] == 'R' && "Remember Me"@[1] == 'e' && "Remember Me"@[10] == 'e',
        "Hesabınız yok mu?"@.len() == 17 && "Hesabınız yok mu?"@[0] == 'H' && "Hesabınız yok mu?"@[1] == 'e' && "Hesabınız yok mu?"@[16] == '?',
        "Don't have an account?"@.len() == 22 && "Don't have an account?"@[0] == 'D' && "Don't have an account?"@[1] == 'o' && "Don't have an account?"@[21] == '?',
        "Lisans satın al"@.len() == 15 && "Lisans satın al"@[0] == 'L' && "Lisans satın al"@[1] == 'i' && "Lisans satın al"@[14] == 'l',
        "Buy license"@.len() == 11 && "Buy license"@[0] == 'B' && "Buy license"@[1] == 'u' && "Buy license"@[10] == 'e',
        "K-BOT MINI"@.len() == 10 && "K-BOT MINI"@[0] == 'K' && "K-BOT MINI"@[1] == '-' && "K-BOT MINI"@[9] == 'I',
        "Durum: Aktif"@.len() == 12 && "Durum: Aktif"@[0] == 'D' && "Durum: Aktif"@[1] == 'u' && "Durum: Aktif"@[11] == 'f',
        "Status: Active"@.len() == 14 && "Status: Active"@[0] == 'S' && "Status: Active"@[1] == 't' && "Status: Active"@[13] == 'e',
        "Durum: Durduruldu"@.len() == 17 && "Durum: Durduruldu"@[0] == 'D' && "Durum: Durduruldu"@[1] == 'u' && "Durum: Durduruldu"@[16] == 'u',
        "Status: Stopped"@.len() == 15 && "Status: Stopped"@[0] == 'S' && "Status: Stopped"@[1] == 't' && "Status: Stopped"@[14] == 'd',
        "Büyüt"@.len() == 5 && "Büyüt"@[0] == 'B' && "Büyüt"@[1] == 'ü' && "Büyüt"@[4] == 't',
        "Maximize"@.len() == 8 && "Maximize"@[0] == 'M' && "Maximize"@[1] == 'a' && "Maximize"@[7] == 'e',
        "▶  BAŞLAT"@.len() == 9 && "▶  BAŞLAT"@[0] == '▶' && "▶  BAŞLAT"@[1] == ' ' && "▶  BAŞLAT"@[8] == 'T',
        "▶  START"@.len() == 8 && "▶  START"@[0] == '▶' && "▶  START"@[1] == ' ' && "▶  START"@[7] == 'T',
        "⏹  DURDUR"@.len() == 9 && "⏹  DURDUR"@[0] == '⏹' && "⏹  DURDUR"@[1] == ' ' && "⏹  DURDUR"@[8] == 'R',
        "⏹  STOP"@.len() == 7 && "⏹  STOP"@[0] == '⏹' && "⏹  STOP"@[1] == ' ' && "⏹  STOP"@[6] == 'P',
{
    reveal_strlit("Genel Bakış");
    reveal_strlit("Overview");
    reveal_strlit("Farming");
    reveal_strlit("Yetenekler");
    reveal_strlit("Skills");
    reveal_strlit("Eşyalar");
    reveal_strlit("Items");
    reveal_strlit("Captcha");
    reveal_strlit("OCR");
    reveal_strlit("Çoklu Client");
    reveal_strlit("Multi-Client");
    reveal_strlit("Ayarlar");
    reveal_strlit("Settings");
    reveal_strlit("Kayıtlar");
    reveal_strlit("Logs");
    reveal_strlit("↪ Çıkış Yap");
    reveal_strlit("↪ Logout");
    reveal_strlit("‹ Küçült");
    reveal_strlit("‹ Minimize");
    reveal_strlit("Dashboard");
    reveal_strlit("Bağlı");
    reveal_strlit("Connected");
    reveal_strlit("⊙  GİRİŞ YAP");
    reveal_strlit("⊙  LOGIN");
    reveal_strlit("Lütfen tüm alanları doldurun.");
    reveal_strlit("Please fill all fields.");
    reveal_strlit("Geçersiz kullanıcı adı veya şifre.");
    reveal_strlit("Invalid username or password.");
    reveal_strlit("Beni Hatırla");
    reveal_strlit("Remember Me");
    reveal_strlit("Hesabınız yok mu?");
    reveal_strlit("Don't have an account?");
    reveal_strlit("Lisans satın al");
    reveal_strlit("Buy license");
    reveal_strlit("K-BOT MINI");
    reveal_strlit("Durum: Aktif");
    reveal_strlit("Status: Active");
    reveal_strlit("Durum: Durduruldu");
    reveal_strlit("Status: Stopped");
    reveal_strlit("Büyüt");
    reveal_strlit("Maximize");
    reveal_strlit("▶  BAŞLAT");
    reveal_strlit("▶  START");
    reveal_strlit("⏹  DURDUR");
    reveal_strlit("⏹  STOP");
}

/// Length and first, second and last characters of texts of the table.
proof fn lemma_text_marks_1()
    ensures
        "💾 Ayarları Kaydet"@.len() == 17 && "💾 Ayarları Kaydet"@[0] == '💾' && "💾 Ayarları Kaydet"@[1] == ' ' && "💾 Ayarları Kaydet"@[16] == 't',
        "💾 Save Settings"@.len() == 15 && "💾 Save Settings"@[0] == '💾' && "💾 Save Settings"@[1] == ' ' && "💾 Save Settings"@[14] == 's',
        "🎯 Test Tıklama"@.len() == 14 && "🎯 Test Tıklama"@[0] == '🎯' && "🎯 Test Tıklama"@[1] == ' ' && "🎯 Test Tıklama"@[13] == 'a',
        "🎯 Test Click"@.len() == 12 && "🎯 Test Click"@[0] == '🎯' && "🎯 Test Click"@[1] == ' ' && "🎯 Test Click"@[11] == 'k',
        "🗑 Temizle"@.len() == 9 && "🗑 Temizle"@[0] == '🗑' && "🗑 Temizle"@[1] == ' ' && "🗑 Temizle"@[8] == 'e',
        "🗑 Clear"@.len() == 7 && "🗑 Clear"@[0] == '🗑' && "🗑 Clear"@[1] == ' ' && "🗑 Clear"@[6] == 'r',
        "Aktif"@.len() == 5 && "Aktif"@[0] == 'A' && "Aktif"@[1] == 'k' && "Aktif"@[4] == 'f',
        "Active"@.len() == 6 && "Active"@[0] == 'A' && "Active"@[1] == 'c' && "Active"@[5] == 'e',
        "Pasif"@.len() == 5 && "Pasif"@[0] == 'P' && "Pasif"@[1] == 'a' && "Pasif"@[4] == 'f',
        "Inactive"@.len() == 8 && "Inactive"@[0] == 'I' && "Inactive"@[1] == 'n' && "Inactive"@[7] == 'e',
        "BOT DURUMU"@.len() == 10 && "BOT DURUMU"@[0] == 'B' && "BOT DURUMU"@[1] == 'O' && "BOT DURUMU"@[9] == 'U',
        "BOT STATUS"@.len() == 10 && "BOT STATUS"@[0] == 'B' && "BOT STATUS"@[1] == 'O' && "BOT STATUS"@[9] == 'S',
        "Sistem boşta"@.len() == 12 && "Sistem boşta"@[0] == 'S' && "Sistem boşta"@[1] == 'i' && "Sistem boşta"@[11] == 'a',
        "System idle"@.len() == 11 && "System idle"@[0] == 'S' && "System idle"@[1] == 'y' && "System idle"@[10] == 'e',
        "Çalışıyor"@.len() == 9 && "Çalışıyor"@[0] == 'Ç' && "Çalışıyor"@[1] == 'a' && "Çalışıyor"@[8] == 'r',
        "Running"@.len() == 7 && "Running"@[0] == 'R' && "Running"@[1] == 'u' && "Running"@[6] == 'g',
        "İSTATİSTİKLER"@.len() == 13 && "İSTATİSTİKLER"@[0] == 'İ' && "İSTATİSTİKLER"@[1] == 'S' && "İSTATİSTİKLER"@[12] == 'R',
        "STATISTICS"@.len() == 10 && "STATISTICS"@[0] == 'S' && "STATISTICS"@[1] == 'T' && "STATISTICS"@[9] == 'S',
        "Kırılan Taş"@.len() == 11 && "Kırılan Taş"@[0] == 'K' && "Kırılan Taş"@[1] == 'ı' && "Kırılan Taş"@[10] == 'ş',
        "Mined Stones"@.len() == 12 && "Mined Stones"@[0] == 'M' && "Mined Stones"@[1] == 'i' && "Mined Stones"@[11] == 's',
        "Iskalanan"@.len() == 9 && "Iskalanan"@[0] == 'I' && "Iskalanan"@[1] == 's' && "Iskalanan"@[8] == 'n',
        "Missed"@.len() == 6 && "Missed"@[0] == 'M' && "Missed"@[1] == 'i' && "Missed"@[5] == 'd',
        "Çözülen Captcha"@.len() == 15 && "Çözülen Captcha"@[0] == 'Ç' && "Çözülen Captcha"@[1] == 'ö' && "Çözülen Captcha"@[14] == 'a',
        "Solved Captchas"@.len() == 15 && "Solved Captchas"@[0] == 'S' && "Solved Captchas"@[1] == 'o' && "Solved Captchas"@[14] == 's',
        "Çalışma Süresi"@.len() == 14 && "Çalışma Süresi"@[0] == 'Ç' && "Çalışma Süresi"@[1] == 'a' && "Çalışma Süresi"@[13] == 'i',
        "Uptime"@.len() == 6 && "Uptime"@[0] == 'U' && "Uptime"@[1] == 'p' && "Uptime"@[5] == 'e',
        "SON SAATTEKİ PERFORMANS"@.len() == 23 && "SON SAATTEKİ PERFORMANS"@[0] == 'S' && "SON SAATTEKİ PERFORMANS"@[1] == 'O' && "SON SAATTEKİ PERFORMANS"@[22] == 'S',
        "PERFORMANCE (LAST HOUR)"@.len() == 23 && "PERFORMANCE (LAST HOUR)"@[0] == 'P' && "PERFORMANCE (LAST HOUR)"@[1] == 'E' && "PERFORMANCE (LAST HOUR)"@[22] == ')',
        "Kırılan Taş Grafiği"@.len() == 19 && "Kırılan Taş Grafiği"@[0] == 'K' && "Kırılan Taş Grafiği"@[1] == 'ı' && "Kırılan Taş Grafiği"@[18] == 'i',
        "Mined Stones Graph"@.len() == 18 && "Mined Stones Graph"@[0] == 'M' && "Mined Stones Graph"@[1] == 'i' && "Mined Stones Graph"@[17] == 'h',
        "MEVCUT HARİTA"@.len() == 13 && "MEVCUT HARİTA"@[0] == 'M' && "MEVCUT HARİTA"@[1] == 'E' && "MEVCUT HARİTA"@[12] == 'A',
        "CURRENT MAP"@.len() == 11 && "CURRENT MAP"@[0] == 'C' && "CURRENT MAP"@[1] == 'U' && "CURRENT MAP"@[10] == 'P',
        "Gerçek zamanlı bot durumu ve istatistikler"@.len() == 42 && "Gerçek zamanlı bot durumu ve istatistikler"@[0] == 'G' && "Gerçek zamanlı bot durumu ve istatistikler"@[1] == 'e' && "Gerçek zamanlı bot durumu ve istatistikler"@[41] == 'r',
        "Real-time bot status and statistics"@.len() == 35 && "Real-time bot status and statistics"@[0] == 'R' && "Real-time bot status and statistics"@[1] == 'e' && "Real-time bot status and statistics"@[34] == 's',
        "son saatte"@.len() == 10 && "son saatte"@[0] == 's' && "son saatte"@[1] == 'o' && "son saatte"@[9] == 'e',
        "last hour"@.len() == 9 && "last hour"@[0] == 'l' && "last hour"@[1] == 'a' && "last hour"@[8] == 'r',
        "Canlı"@.len() == 5 && "Canlı"@[0] == 'C' && "Canlı"@[1] == 'a' && "Canlı"@[4] == 'ı',
        "Live"@.len() == 4 && "Live"@[0] == 'L' && "Live"@[1] == 'i' && "Live"@[3] == 'e',
        "Veri toplanıyor..."@.len() == 18 && "Veri toplanıyor..."@[0] == 'V' && "Veri toplanıyor..."@[1] == 'e' && "Veri toplanıyor..."@[17] == '.',
        "Collecting data..."@.len() == 18 && "Collecting data..."@[0] == 'C' && "Collecting data..."@[1] == 'o' && "Collecting data..."@[17] == '.',
        "Son dakika"@.len() == 10 && "Son dakika"@[0] == 'S' && "Son dakika"@[1] == 'o' && "Son dakika"@[9] == 'a',
        "Last minute"@.len() == 11 && "Last minute"@[0] == 'L' && "Last minute"@[1] == 'a' && "Last minute"@[10] == 'e',
        "Max:"@.len() == 4 && "Max:"@[0] == 'M' && "Max:"@[1] == 'a' && "Max:"@[3] == ':',
        "Farming Ayarları"@.len() == 16 && "Farming Ayarları"@[0] == 'F' && "Farming Ayarları"@[1] == 'a' && "Farming Ayarları"@[15] == 'ı',
        "Farming Settings"@.len() == 16 && "Farming Settings"@[0] == 'F' && "Farming Settings"@[1] == 'a' && "Farming Settings"@[15] == 's',
{
    reveal_strlit("💾 Ayarları Kaydet");
    reveal_strlit("💾 Save Settings");
    reveal_strlit("🎯 Test Tıklama");
    reveal_strlit("🎯 Test Click");
    reveal_strlit("🗑 Temizle");
    reveal_strlit("🗑 Clear");
    reveal_strlit("Aktif");
    reveal_strlit("Active");
    reveal_strlit("Pasif");
    reveal_strlit("Inactive");
    reveal_strlit("BOT DURUMU");
    reveal_strlit("BOT STATUS");
    reveal_strlit("Sistem boşta");
    reveal_strlit("System idle");
    reveal_strlit("Çalışıyor");
    reveal_strlit("Running");
    reveal_strlit("İSTATİSTİKLER");
    reveal_strlit("STATISTICS");
    reveal_strlit("Kırılan Taş");
    reveal_strlit("Mined Stones");
    reveal_strlit("Iskalanan");
    reveal_strlit("Missed");
    reveal_strlit("Çözülen Captcha");
    reveal_strlit("Solved Captchas");
    reveal_strlit("Çalışma Süresi");
    reveal_strlit("Uptime");
    reveal_strlit("SON SAATTEKİ PERFORMANS");
    reveal_strlit("PERFORMANCE (LAST HOUR)");
    reveal_strlit("Kırılan Taş Grafiği");
    reveal_strlit("Mined Stones Graph");
    reveal_strlit("MEVCUT HARİTA");
    reveal_strlit("CURRENT MAP");
    reveal_strlit("Gerçek zamanlı bot durumu ve istatistikler");
    reveal_strlit("Real-time bot status and statistics");
    reveal_strlit("son saatte");
    reveal_strlit("last hour");
    reveal_strlit("Canlı");
    reveal_strlit("Live");
    reveal_strlit("Veri toplanıyor...");
    reveal_strlit("Collecting data...");
    reveal_strlit("Son dakika");
    reveal_strlit("Last minute");
    reveal_strlit("Max:");
    reveal_strlit("Farming Ayarları");
    reveal_strlit("Farming Settings");
}

/// Length and first, second and last characters of texts of the table.
proof fn lemma_text_marks_2()
    ensures
        "Savaş, hedef ve bölge konfigürasyonu"@.len() == 36 && "Savaş, hedef ve bölge konfigürasyonu"@[0] == 'S' && "Savaş, hedef ve bölge konfigürasyonu"@[1] == 'a' && "Savaş, hedef ve bölge konfigürasyonu"@[35] == 'u',
        "Combat, target, and zone configuration"@.len() == 38 && "Combat, target, and zone configuration"@[0] == 'C' && "Combat, target, and zone configuration"@[1] == 'o' && "Combat, target, and zone configuration"@[37] == 'n',
        "HEDEF METİN TAŞLARI"@.len() == 19 && "HEDEF METİN TAŞLARI"@[0] == 'H' && "HEDEF METİN TAŞLARI"@[1] == 'E' && "HEDEF METİN TAŞLARI"@[18] == 'I',
        "TARGET METIN STONES"@.len() == 19 && "TARGET METIN STONES"@[0] == 'T' && "TARGET METIN STONES"@[1] == 'A' && "TARGET METIN STONES"@[18] == 'S',
        "EŞYA TOPLAMA"@.len() == 12 && "EŞYA TOPLAMA"@[0] == 'E' && "EŞYA TOPLAMA"@[1] == 'Ş' && "EŞYA TOPLAMA"@[11] == 'A',
        "ITEM PICKUP"@.len() == 11 && "ITEM PICKUP"@[0] == 'I' && "ITEM PICKUP"@[1] == 'T' && "ITEM PICKUP"@[10] == 'P',
        "Topla"@.len() == 5 && "Topla"@[0] == 'T' && "Topla"@[1] == 'o' && "Topla"@[4] == 'a',
        "Pickup"@.len() == 6 && "Pickup"@[0] == 'P' && "Pickup"@[1] == 'i' && "Pickup"@[5] == 'p',
        "Tuş"@.len() == 3 && "Tuş"@[0] == 'T' && "Tuş"@[1] == 'u' && "Tuş"@[2] == 'ş',
        "Key"@.len() == 3 && "Key"@[0] == 'K' && "Key"@[1] == 'e' && "Key"@[2] == 'y',
        "YETENEKLER & BUFFLAR"@.len() == 20 && "YETENEKLER & BUFFLAR"@[0] == 'Y' && "YETENEKLER & BUFFLAR"@[1] == 'E' && "YETENEKLER & BUFFLAR"@[19] == 'R',
        "SKILLS & BUFFS"@.len() == 14 && "SKILLS & BUFFS"@[0] == 'S' && "SKILLS & BUFFS"@[1] == 'K' && "SKILLS & BUFFS"@[13] == 'S',
        "Tuş ve Bekleme Süresi (sn)"@.len() == 26 && "Tuş ve Bekleme Süresi (sn)"@[0] == 'T' && "Tuş ve Bekleme Süresi (sn)"@[1] == 'u' && "Tuş ve Bekleme Süresi (sn)"@[25] == ')',
        "Key and Cooldown (sec)"@.len() == 22 && "Key and Cooldown (sec)"@[0] == 'K' && "Key and Cooldown (sec)"@[1] == 'e' && "Key and Cooldown (sec)"@[21] == ')',
        "İksir Otomasyonu"@.len() == 16 && "İksir Otomasyonu"@[0] == 'İ' && "İksir Otomasyonu"@[1] == 'k' && "İksir Otomasyonu"@[15] == 'u',
        "Potion Automation"@.len() == 17 && "Potion Automation"@[0] == 'P' && "Potion Automation"@[1] == 'o' && "Potion Automation"@[16] == 'n',
        "Eşya Filtresi"@.len() == 13 && "Eşya Filtresi"@[0] == 'E' && "Eşya Filtresi"@[1] == 'ş' && "Eşya Filtresi"@[12] == 'i',
        "Item Filter"@.len() == 11 && "Item Filter"@[0] == 'I' && "Item Filter"@[1] == 't' && "Item Filter"@[10] == 'r',
        "Düşen eşya toplama kuralları"@.len() == 28 && "Düşen eşya toplama kuralları"@[0] == 'D' && "Düşen eşya toplama kuralları"@[1] == 'ü' && "Düşen eşya toplama kuralları"@[27] == 'ı',
        "Looting rules"@.len() == 13 && "Looting rules"@[0] == 'L' && "Looting rules"@[1] == 'o' && "Looting rules"@[12] == 's',
        "Bu bölüm ileride eklenecektir."@.len() == 30 && "Bu bölüm ileride eklenecektir."@[0] == 'B' && "Bu bölüm ileride eklenecektir."@[1] == 'u' && "Bu bölüm ileride eklenecektir."@[29] == '.',
        "This section will be added later."@.len() == 33 && "This section will be added later."@[0] == 'T' && "This section will be added later."@[1] == 'h' && "This section will be added later."@[32] == '.',
        "KULLANILACAK EŞYALAR"@.len() == 20 && "KULLANILACAK EŞYALAR"@[0] == 'K' && "KULLANILACAK EŞYALAR"@[1] == 'U' && "KULLANILACAK EŞYALAR"@[19] == 'R',
        "ITEMS TO USE"@.len() == 12 && "ITEMS TO USE"@[0] == 'I' && "ITEMS TO USE"@[1] == 'T' && "ITEMS TO USE"@[11] == 'E',
        "Captcha İstatistikleri"@.len() == 22 && "Captcha İstatistikleri"@[0] == 'C' && "Captcha İstatistikleri"@[1] == 'a' && "Captcha İstatistikleri"@[21] == 'i',
        "Captcha Statistics"@.len() == 18 && "Captcha Statistics"@[0] == 'C' && "Captcha Statistics"@[1] == 'a' && "Captcha Statistics"@[17] == 's',
        "Captcha çözüm başarı oranları"@.len() == 29 && "Captcha çözüm başarı oranları"@[0] == 'C' && "Captcha çözüm başarı oranları"@[1] == 'a' && "Captcha çözüm başarı oranları"@[28] == 'ı',
        "Captcha solve success rates"@.len() == 27 && "Captcha solve success rates"@[0] == 'C' && "Captcha solve success rates"@[1] == 'a' && "Captcha solve success rates"@[26] == 's',
        "BAŞARILI"@.len() == 8 && "BAŞARILI"@[0] == 'B' && "BAŞARILI"@[1] == 'A' && "BAŞARILI"@[7] == 'I',
        "SUCCESS"@.len() == 7 && "SUCCESS"@[0] == 'S' && "SUCCESS"@[1] == 'U' && "SUCCESS"@[6] == 'S',
        "BAŞARISIZ"@.len() == 9 && "BAŞARISIZ"@[0] == 'B' && "BAŞARISIZ"@[1] == 'A' && "BAŞARISIZ"@[8] == 'Z',
        "FAILED"@.len() == 6 && "FAILED"@[0] == 'F' && "FAILED"@[1] == 'A' && "FAILED"@[5] == 'D',
        "TOPLAM"@.len() == 6 && "TOPLAM"@[0] == 'T' && "TOPLAM"@[1] == 'O' && "TOPLAM"@[5] == 'M',
        "TOTAL"@.len() == 5 && "TOTAL"@[0] == 'T' && "TOTAL"@[1] == 'O' && "TOTAL"@[4] == 'L',
        "Toplam captcha"@.len() == 14 && "Toplam captcha"@[0] == 'T' && "Toplam captcha"@[1] == 'o' && "Toplam captcha"@[13] == 'a',
        "Total captchas"@.len() == 14 && "Total captchas"@[0] == 'T' && "Total captchas"@[1] == 'o' && "Total captchas"@[13] == 's',
        "BAŞARI ORANI"@.len() == 12 && "BAŞARI ORANI"@[0] == 'B' && "BAŞARI ORANI"@[1] == 'A' && "BAŞARI ORANI"@[11] == 'I',
        "SUCCESS RATE"@.len() == 12 && "SUCCESS RATE"@[0] == 'S' && "SUCCESS RATE"@[1] == 'U' && "SUCCESS RATE"@[11] == 'E',
        "Başarı:"@.len() == 7 && "Başarı:"@[0] == 'B' && "Başarı:"@[1] == 'a' && "Başarı:"@[6] == ':',
        "Success:"@.len() == 8 && "Success:"@[0] == 'S' && "Success:"@[1] == 'u' && "Success:"@[7] == ':',
        "Başarısız:"@.len() == 10 && "Başarısız:"@[0] == 'B' && "Başarısız:"@[1] == 'a' && "Başarısız:"@[9] == ':',
        "Failed:"@.len() == 7 && "Failed:"@[0] == 'F' && "Failed:"@[1] == 'a' && "Failed:"@[6] == ':',
        "Captcha Loglarını Sıfırla"@.len() == 25 && "Captcha Loglarını Sıfırla"@[0] == 'C' && "Captcha Loglarını Sıfırla"@[1] == 'a' && "Captcha Loglarını Sıfırla"@[24] == 'a',
        "Reset Captcha Logs"@.len() == 18 && "Reset Captcha Logs"@[0] == 'R' && "Reset Captcha Logs"@[1] == 'e' && "Reset Captcha Logs"@[17] == 's',
        "CAPTCHA ÇÖZÜCÜ"@.len() == 14 && "CAPTCHA ÇÖZÜCÜ"@[0] == 'C' && "CAPTCHA ÇÖZÜCÜ"@[1] == 'A' && "CAPTCHA ÇÖZÜCÜ"@[13] == 'Ü',
{
    reveal_strlit("Savaş, hedef ve bölge konfigürasyonu");
    reveal_strlit("Combat, target, and zone configuration");
    reveal_strlit("HEDEF METİN TAŞLARI");
    reveal_strlit("TARGET METIN STONES");
    reveal_strlit("EŞYA TOPLAMA");
    reveal_strlit("ITEM PICKUP");
    reveal_strlit("Topla");
    reveal_strlit("Pickup");
    reveal_strlit("Tuş");
    reveal_strlit("Key");
    reveal_strlit("YETENEKLER & BUFFLAR");
    reveal_strlit("SKILLS & BUFFS");
    reveal_strlit("Tuş ve Bekleme Süresi (sn)");
    reveal_strlit("Key and Cooldown (sec)");
    reveal_strlit("İksir Otomasyonu");
    reveal_strlit("Potion Automation");
    reveal_strlit("Eşya Filtresi");
    reveal_strlit("Item Filter");
    reveal_strlit("Düşen eşya toplama kuralları");
    reveal_strlit("Looting rules");
    reveal_strlit("Bu bölüm ileride eklenecektir.");
    reveal_strlit("This section will be added later.");
    reveal_strlit("KULLANILACAK EŞYALAR");
    reveal_strlit("ITEMS TO USE");
    reveal_strlit("Captcha İstatistikleri");
    reveal_strlit("Captcha Statistics");
    reveal_strlit("Captcha çözüm başarı oranları");
    reveal_strlit("Captcha solve success rates");
    reveal_strlit("BAŞARILI");
    reveal_strlit("SUCCESS");
    reveal_strlit("BAŞARISIZ");
    reveal_strlit("FAILED");
    reveal_strlit("TOPLAM");
    reveal_strlit("TOTAL");
    reveal_strlit("Toplam captcha");
    reveal_strlit("Total captchas");
    reveal_strlit("BAŞARI ORANI");
    reveal_strlit("SUCCESS RATE");
    reveal_strlit("Başarı:");
    reveal_strlit("Success:");
    reveal_strlit("Başarısız:");
    reveal_strlit("Failed:");
    reveal_strlit("Captcha Loglarını Sıfırla");
    reveal_strlit("Reset Captcha Logs");
    reveal_strlit("CAPTCHA ÇÖZÜCÜ");
}

/// Length and first, second and last characters of texts of the table.
proof fn lemma_text_marks_3()
    ensures
        "CAPTCHA SOLVER"@.len() == 14 && "CAPTCHA SOLVER"@[0] == 'C' && "CAPTCHA SOLVER"@[1] == 'A' && "CAPTCHA SOLVER"@[13] == 'R',
        "Sürücü (Motor)"@.len() == 14 && "Sürücü (Motor)"@[0] == 'S' && "Sürücü (Motor)"@[1] == 'ü' && "Sürücü (Motor)"@[13] == ')',
        "Driver (Engine)"@.len() == 15 && "Driver (Engine)"@[0] == 'D' && "Driver (Engine)"@[1] == 'r' && "Driver (Engine)"@[14] == ')',
        "Durdur (Alarm Çal)"@.len() == 18 && "Durdur (Alarm Çal)"@[0] == 'D' && "Durdur (Alarm Çal)"@[1] == 'u' && "Durdur (Alarm Çal)"@[17] == ')',
        "Stop (Play Alarm)"@.len() == 17 && "Stop (Play Alarm)"@[0] == 'S' && "Stop (Play Alarm)"@[1] == 't' && "Stop (Play Alarm)"@[16] == ')',
        "İstatistikler"@.len() == 13 && "İstatistikler"@[0] == 'İ' && "İstatistikler"@[1] == 's' && "İstatistikler"@[12] == 'r',
        "Statistics"@.len() == 10 && "Statistics"@[0] == 'S' && "Statistics"@[1] == 't' && "Statistics"@[9] == 's',
        "Oran:"@.len() == 5 && "Oran:"@[0] == 'O' && "Oran:"@[1] == 'r' && "Oran:"@[4] == ':',
        "Rate:"@.len() == 5 && "Rate:"@[0] == 'R' && "Rate:"@[1] == 'a' && "Rate:"@[4] == ':',
        "OCR & Kilit Ayarları"@.len() == 20 && "OCR & Kilit Ayarları"@[0] == 'O' && "OCR & Kilit Ayarları"@[1] == 'C' && "OCR & Kilit Ayarları"@[19] == 'ı',
        "OCR & Lock Settings"@.len() == 19 && "OCR & Lock Settings"@[0] == 'O' && "OCR & Lock Settings"@[1] == 'C' && "OCR & Lock Settings"@[18] == 's',
        "Captcha OCR alanı ve hedef kilit konfigürasyonu"@.len() == 47 && "Captcha OCR alanı ve hedef kilit konfigürasyonu"@[0] == 'C' && "Captcha OCR alanı ve hedef kilit konfigürasyonu"@[1] == 'a' && "Captcha OCR alanı ve hedef kilit konfigürasyonu"@[46] == 'u',
        "Captcha OCR region and target lock configuration"@.len() == 48 && "Captcha OCR region and target lock configuration"@[0] == 'C' && "Captcha OCR region and target lock configuration"@[1] == 'a' && "Captcha OCR region and target lock configuration"@[47] == 'n',
        "CAPTCHA OCR ALANI (SABİT)"@.len() == 25 && "CAPTCHA OCR ALANI (SABİT)"@[0] == 'C' && "CAPTCHA OCR ALANI (SABİT)"@[1] == 'A' && "CAPTCHA OCR ALANI (SABİT)"@[24] == ')',
        "CAPTCHA OCR REGION (FIXED)"@.len() == 26 && "CAPTCHA OCR REGION (FIXED)"@[0] == 'C' && "CAPTCHA OCR REGION (FIXED)"@[1] == 'A' && "CAPTCHA OCR REGION (FIXED)"@[25] == ')',
        "(Sabit)"@.len() == 7 && "(Sabit)"@[0] == '(' && "(Sabit)"@[1] == 'S' && "(Sabit)"@[6] == ')',
        "(Fixed)"@.len() == 7 && "(Fixed)"@[0] == '(' && "(Fixed)"@[1] == 'F' && "(Fixed)"@[6] == ')',
        "OCR alanı bu koordinatlarda çalışır."@.len() == 36 && "OCR alanı bu koordinatlarda çalışır."@[0] == 'O' && "OCR alanı bu koordinatlarda çalışır."@[1] == 'C' && "OCR alanı bu koordinatlarda çalışır."@[35] == '.',
        "OCR region works in these coordinates."@.len() == 38 && "OCR region works in these coordinates."@[0] == 'O' && "OCR region works in these coordinates."@[1] == 'C' && "OCR region works in these coordinates."@[37] == '.',
        "HEDEF KİLİT AYARLARI"@.len() == 20 && "HEDEF KİLİT AYARLARI"@[0] == 'H' && "HEDEF KİLİT AYARLARI"@[1] == 'E' && "HEDEF KİLİT AYARLARI"@[19] == 'I',
        "TARGET LOCK SETTINGS"@.len() == 20 && "TARGET LOCK SETTINGS"@[0] == 'T' && "TARGET LOCK SETTINGS"@[1] == 'A' && "TARGET LOCK SETTINGS"@[19] == 'S',
        "📂 Şablon Seç"@.len() == 12 && "📂 Şablon Seç"@[0] == '📂' && "📂 Şablon Seç"@[1] == ' ' && "📂 Şablon Seç"@[11] == 'ç',
        "📂 Select Template"@.len() == 17 && "📂 Select Template"@[0] == '📂' && "📂 Select Template"@[1] == ' ' && "📂 Select Template"@[16] == 'e',
        "⏳ 3:Sol üst  4:Sağ alt"@.len() == 22 && "⏳ 3:Sol üst  4:Sağ alt"@[0] == '⏳' && "⏳ 3:Sol üst  4:Sağ alt"@[1] == ' ' && "⏳ 3:Sol üst  4:Sağ alt"@[21] == 't',
        "⏳ 3:Top-Left  4:Bot-Right"@.len() == 25 && "⏳ 3:Top-Left  4:Bot-Right"@[0] == '⏳' && "⏳ 3:Top-Left  4:Bot-Right"@[1] == ' ' && "⏳ 3:Top-Left  4:Bot-Right"@[24] == 't',
        "🔒 Bölge Seç (3/4)"@.len() == 17 && "🔒 Bölge Seç (3/4)"@[0] == '🔒' && "🔒 Bölge Seç (3/4)"@[1] == ' ' && "🔒 Bölge Seç (3/4)"@[16] == ')',
        "🔒 Select Region (3/4)"@.len() == 21 && "🔒 Select Region (3/4)"@[0] == '🔒' && "🔒 Select Region (3/4)"@[1] == ' ' && "🔒 Select Region (3/4)"@[20] == ')',
        "AÇIK METİN2 PENCERELERİ"@.len() == 23 && "AÇIK METİN2 PENCERELERİ"@[0] == 'A' && "AÇIK METİN2 PENCERELERİ"@[1] == 'Ç' && "AÇIK METİN2 PENCERELERİ"@[22] == 'İ',
        "OPEN METIN2 WINDOWS"@.len() == 19 && "OPEN METIN2 WINDOWS"@[0] == 'O' && "OPEN METIN2 WINDOWS"@[1] == 'P' && "OPEN METIN2 WINDOWS"@[18] == 'S',
        "Mevcut açık ve bot tarafından yönetilen clientler."@.len() == 50 && "Mevcut açık ve bot tarafından yönetilen clientler."@[0] == 'M' && "Mevcut açık ve bot tarafından yönetilen clientler."@[1] == 'e' && "Mevcut açık ve bot tarafından yönetilen clientler."@[49] == '.',
        "Currently open clients managed by the bot."@.len() == 42 && "Currently open clients managed by the bot."@[0] == 'C' && "Currently open clients managed by the bot."@[1] == 'u' && "Currently open clients managed by the bot."@[41] == '.',
        "Çoklu Client Yönetimi"@.len() == 21 && "Çoklu Client Yönetimi"@[0] == 'Ç' && "Çoklu Client Yönetimi"@[1] == 'o' && "Çoklu Client Yönetimi"@[20] == 'i',
        "Multi-Client Management"@.len() == 23 && "Multi-Client Management"@[0] == 'M' && "Multi-Client Management"@[1] == 'u' && "Multi-Client Management"@[22] == 't',
        "Birden fazla oyun penceresini yönetin"@.len() == 37 && "Birden fazla oyun penceresini yönetin"@[0] == 'B' && "Birden fazla oyun penceresini yönetin"@[1] == 'i' && "Birden fazla oyun penceresini yönetin"@[36] == 'n',
        "Manage multiple game windows"@.len() == 28 && "Manage multiple game windows"@[0] == 'M' && "Manage multiple game windows"@[1] == 'a' && "Manage multiple game windows"@[27] == 's',
        "CLIENT LİSTESİ"@.len() == 14 && "CLIENT LİSTESİ"@[0] == 'C' && "CLIENT LİSTESİ"@[1] == 'L' && "CLIENT LİSTESİ"@[13] == 'İ',
        "CLIENT LIST"@.len() == 11 && "CLIENT LIST"@[0] == 'C' && "CLIENT LIST"@[1] == 'L' && "CLIENT LIST"@[10] == 'T',
        "Henüz client eklenmedi."@.len() == 23 && "Henüz client eklenmedi."@[0] == 'H' && "Henüz client eklenmedi."@[1] == 'e' && "Henüz client eklenmedi."@[22] == '.',
        "No clients added yet."@.len() == 21 && "No clients added yet."@[0] == 'N' && "No clients added yet."@[1] == 'o' && "No clients added yet."@[20] == '.',
        "⏳ Shift ile seç..."@.len() == 18 && "⏳ Shift ile seç..."@[0] == '⏳' && "⏳ Shift ile seç..."@[1] == ' ' && "⏳ Shift ile seç..."@[17] == '.',
        "⏳ Select with Shift..."@.len() == 22 && "⏳ Select with Shift..."@[0] == '⏳' && "⏳ Select with Shift..."@[1] == ' ' && "⏳ Select with Shift..."@[21] == '.',
        "🎯 PID Seç"@.len() == 9 && "🎯 PID Seç"@[0] == '🎯' && "🎯 PID Seç"@[1] == ' ' && "🎯 PID Seç"@[8] == 'ç',
        "🎯 Select PID"@.len() == 12 && "🎯 Select PID"@[0] == '🎯' && "🎯 Select PID"@[1] == ' ' && "🎯 Select PID"@[11] == 'D',
        "📺 Kapat"@.len() == 7 && "📺 Kapat"@[0] == '📺' && "📺 Kapat"@[1] == ' ' && "📺 Kapat"@[6] == 't',
        "📺 Close"@.len() == 7 && "📺 Close"@[0] == '📺' && "📺 Close"@[1] == ' ' && "📺 Close"@[6] == 'e',
{
    reveal_strlit("CAPTCHA SOLVER");
    reveal_strlit("Sürücü (Motor)");
    reveal_strlit("Driver (Engine)");
    reveal_strlit("Durdur (Alarm Çal)");
    reveal_strlit("Stop (Play Alarm)");
    reveal_strlit("İstatistikler");
    reveal_strlit("Statistics");
    reveal_strlit("Oran:");
    reveal_strlit("Rate:");
    reveal_strlit("OCR & Kilit Ayarları");
    reveal_strlit("OCR & Lock Settings");
    reveal_strlit("Captcha OCR alanı ve hedef kilit konfigürasyonu");
    reveal_strlit("Captcha OCR region and target lock configuration");
    reveal_strlit("CAPTCHA OCR ALANI (SABİT)");
    reveal_strlit("CAPTCHA OCR REGION (FIXED)");
    reveal_strlit("(Sabit)");
    reveal_strlit("(Fixed)");
    reveal_strlit("OCR alanı bu koordinatlarda çalışır.");
    reveal_strlit("OCR region works in these coordinates.");
    reveal_strlit("HEDEF KİLİT AYARLARI");
    reveal_strlit("TARGET LOCK SETTINGS");
    reveal_strlit("📂 Şablon Seç");
    reveal_strlit("📂 Select Template");
    reveal_strlit("⏳ 3:Sol üst  4:Sağ alt");
    reveal_strlit("⏳ 3:Top-Left  4:Bot-Right");
    reveal_strlit("🔒 Bölge Seç (3/4)");
    reveal_strlit("🔒 Select Region (3/4)");
    reveal_strlit("AÇIK METİN2 PENCERELERİ");
    reveal_strlit("OPEN METIN2 WINDOWS");
    reveal_strlit("Mevcut açık ve bot tarafından yönetilen clientler.");
    reveal_strlit("Currently open clients managed by the bot.");
    reveal_strlit("Çoklu Client Yönetimi");
    reveal_strlit("Multi-Client Management");
    reveal_strlit("Birden fazla oyun penceresini yönetin");
    reveal_strlit("Manage multiple game windows");
    reveal_strlit("CLIENT LİSTESİ");
    reveal_strlit("CLIENT LIST");
    reveal_strlit("Henüz client eklenmedi.");
    reveal_strlit("No clients added yet.");
    reveal_strlit("⏳ Shift ile seç...");
    reveal_strlit("⏳ Select with Shift...");
    reveal_strlit("🎯 PID Seç");
    reveal_strlit("🎯 Select PID");
    reveal_strlit("📺 Kapat");
    reveal_strlit("📺 Close");
}

/// Length and first, second and last characters of texts of the table.
proof fn lemma_text_marks_4()
    ensures
        "📺 İzle"@.len() == 6 && "📺 İzle"@[0] == '📺' && "📺 İzle"@[1] == ' ' && "📺 İzle"@[5] == 'e',
        "📺 Watch"@.len() == 7 && "📺 Watch"@[0] == '📺' && "📺 Watch"@[1] == ' ' && "📺 Watch"@[6] == 'h',
        "Fare:"@.len() == 5 && "Fare:"@[0] == 'F' && "Fare:"@[1] == 'a' && "Fare:"@[4] == ':',
        "Mouse:"@.len() == 6 && "Mouse:"@[0] == 'M' && "Mouse:"@[1] == 'o' && "Mouse:"@[5] == ':',
        "Yeni Client Ekle"@.len() == 16 && "Yeni Client Ekle"@[0] == 'Y' && "Yeni Client Ekle"@[1] == 'e' && "Yeni Client Ekle"@[15] == 'e',
        "Add New Client"@.len() == 14 && "Add New Client"@[0] == 'A' && "Add New Client"@[1] == 'd' && "Add New Client"@[13] == 't',
        "CANLI EKRAN —"@.len() == 13 && "CANLI EKRAN —"@[0] == 'C' && "CANLI EKRAN —"@[1] == 'A' && "CANLI EKRAN —"@[12] == '—',
        "LIVE SCREEN —"@.len() == 13 && "LIVE SCREEN —"@[0] == 'L' && "LIVE SCREEN —"@[1] == 'I' && "LIVE SCREEN —"@[12] == '—',
        "Kamera verisi bekleniyor..."@.len() == 27 && "Kamera verisi bekleniyor..."@[0] == 'K' && "Kamera verisi bekleniyor..."@[1] == 'a' && "Kamera verisi bekleniyor..."@[26] == '.',
        "Waiting for camera data..."@.len() == 26 && "Waiting for camera data..."@[0] == 'W' && "Waiting for camera data..."@[1] == 'a' && "Waiting for camera data..."@[25] == '.',
        "Kaldır"@.len() == 6 && "Kaldır"@[0] == 'K' && "Kaldır"@[1] == 'a' && "Kaldır"@[5] == 'r',
        "Remove"@.len() == 6 && "Remove"@[0] == 'R' && "Remove"@[1] == 'e' && "Remove"@[5] == 'e',
        "GÜVENLİK & ANTİ-TESPİT"@.len() == 22 && "GÜVENLİK & ANTİ-TESPİT"@[0] == 'G' && "GÜVENLİK & ANTİ-TESPİT"@[1] == 'Ü' && "GÜVENLİK & ANTİ-TESPİT"@[21] == 'T',
        "SECURITY & ANTI-DETECT"@.len() == 22 && "SECURITY & ANTI-DETECT"@[0] == 'S' && "SECURITY & ANTI-DETECT"@[1] == 'E' && "SECURITY & ANTI-DETECT"@[21] == 'T',
        "ⓘ Bu ayarlar bot tespitini zorlaştırmak için geliştirilmiştir."@.len() == 62 && "ⓘ Bu ayarlar bot tespitini zorlaştırmak için geliştirilmiştir."@[0] == 'ⓘ' && "ⓘ Bu ayarlar bot tespitini zorlaştırmak için geliştirilmiştir."@[1] == ' ' && "ⓘ Bu ayarlar bot tespitini zorlaştırmak için geliştirilmiştir."@[61] == '.',
        "ⓘ These settings are developed to prevent bot detection."@.len() == 56 && "ⓘ These settings are developed to prevent bot detection."@[0] == 'ⓘ' && "ⓘ These settings are developed to prevent bot detection."@[1] == ' ' && "ⓘ These settings are developed to prevent bot detection."@[55] == '.',
        "Anti-Tespit Modu"@.len() == 16 && "Anti-Tespit Modu"@[0] == 'A' && "Anti-Tespit Modu"@[1] == 'n' && "Anti-Tespit Modu"@[15] == 'u',
        "Anti-Detect Mode"@.len() == 16 && "Anti-Detect Mode"@[0] == 'A' && "Anti-Detect Mode"@[1] == 'n' && "Anti-Detect Mode"@[15] == 'e',
        "İnsan davranışını taklit eder"@.len() == 29 && "İnsan davranışını taklit eder"@[0] == 'İ' && "İnsan davranışını taklit eder"@[1] == 'n' && "İnsan davranışını taklit eder"@[28] == 'r',
        "Simulates human behavior"@.len() == 24 && "Simulates human behavior"@[0] == 'S' && "Simulates human behavior"@[1] == 'i' && "Simulates human behavior"@[23] == 'r',
        "Rastgele Gecikme"@.len() == 16 && "Rastgele Gecikme"@[0] == 'R' && "Rastgele Gecikme"@[1] == 'a' && "Rastgele Gecikme"@[15] == 'e',
        "Random Delay"@.len() == 12 && "Random Delay"@[0] == 'R' && "Random Delay"@[1] == 'a' && "Random Delay"@[11] == 'y',
        "Tıklamalar arasına rastgele ms ekler"@.len() == 36 && "Tıklamalar arasına rastgele ms ekler"@[0] == 'T' && "Tıklamalar arasına rastgele ms ekler"@[1] == 'ı' && "Tıklamalar arasına rastgele ms ekler"@[35] == 'r',
        "Adds random ms between clicks"@.len() == 29 && "Adds random ms between clicks"@[0] == 'A' && "Adds random ms between clicks"@[1] == 'd' && "Adds random ms between clicks"@[28] == 's',
        "OBS Bypass"@.len() == 10 && "OBS Bypass"@[0] == 'O' && "OBS Bypass"@[1] == 'B' && "OBS Bypass"@[9] == 's',
        "Yayın programlarında botu gizler"@.len() == 32 && "Yayın programlarında botu gizler"@[0] == 'Y' && "Yayın programlarında botu gizler"@[1] == 'a' && "Yayın programlarında botu gizler"@[31] == 'r',
        "Hides bot in streaming software"@.len() == 31 && "Hides bot in streaming software"@[0] == 'H' && "Hides bot in streaming software"@[1] == 'i' && "Hides bot in streaming software"@[30] == 'e',
        "Donanım (Mouse) Sürücüsü"@.len() == 24 && "Donanım (Mouse) Sürücüsü"@[0] == 'D' && "Donanım (Mouse) Sürücüsü"@[1] == 'o' && "Donanım (Mouse) Sürücüsü"@[23] == 'ü',
        "Hardware (Mouse) Driver"@.len() == 23 && "Hardware (Mouse) Driver"@[0] == 'H' && "Hardware (Mouse) Driver"@[1] == 'a' && "Hardware (Mouse) Driver"@[22] == 'r',
        "MOLA SİSTEMİ"@.len() == 12 && "MOLA SİSTEMİ"@[0] == 'M' && "MOLA SİSTEMİ"@[1] == 'O' && "MOLA SİSTEMİ"@[11] == 'İ',
        "BREAK SYSTEM"@.len() == 12 && "BREAK SYSTEM"@[0] == 'B' && "BREAK SYSTEM"@[1] == 'R' && "BREAK SYSTEM"@[11] == 'M',
        "Her"@.len() == 3 && "Her"@[0] == 'H' && "Her"@[1] == 'e' && "Her"@[2] == 'r',
        "Every"@.len() == 5 && "Every"@[0] == 'E' && "Every"@[1] == 'v' && "Every"@[4] == 'y',
        "dakikada bir"@.len() == 12 && "dakikada bir"@[0] == 'd' && "dakikada bir"@[1] == 'a' && "dakikada bir"@[11] == 'r',
        "minutes"@.len() == 7 && "minutes"@[0] == 'm' && "minutes"@[1] == 'i' && "minutes"@[6] == 's',
        "dakika mola ver."@.len() == 16 && "dakika mola ver."@[0] == 'd' && "dakika mola ver."@[1] == 'a' && "dakika mola ver."@[15] == '.',
        "minutes break."@.len() == 14 && "minutes break."@[0] == 'm' && "minutes break."@[1] == 'i' && "minutes break."@[13] == '.',
        "BİLDİRİMLER"@.len() == 11 && "BİLDİRİMLER"@[0] == 'B' && "BİLDİRİMLER"@[1] == 'İ' && "BİLDİRİMLER"@[10] == 'R',
        "NOTIFICATIONS"@.len() == 13 && "NOTIFICATIONS"@[0] == 'N' && "NOTIFICATIONS"@[1] == 'O' && "NOTIFICATIONS"@[12] == 'S',
        "Uygulama İçi Uyarılar"@.len() == 21 && "Uygulama İçi Uyarılar"@[0] == 'U' && "Uygulama İçi Uyarılar"@[1] == 'y' && "Uygulama İçi Uyarılar"@[20] == 'r',
        "In-App Alerts"@.len() == 13 && "In-App Alerts"@[0] == 'I' && "In-App Alerts"@[1] == 'n' && "In-App Alerts"@[12] == 's',
        "Sesli Bildirim"@.len() == 14 && "Sesli Bildirim"@[0] == 'S' && "Sesli Bildirim"@[1] == 'e' && "Sesli Bildirim"@[13] == 'm',
        "Sound Notification"@.len() == 18 && "Sound Notification"@[0] == 'S' && "Sound Notification"@[1] == 'o' && "Sound Notification"@[17] == 'n',
        "Telegram'a Bildir"@.len() == 17 && "Telegram'a Bildir"@[0] == 'T' && "Telegram'a Bildir"@[1] == 'e' && "Telegram'a Bildir"@[16] == 'r',
        "Notify Telegram"@.len() == 15 && "Notify Telegram"@[0] == 'N' && "Notify Telegram"@[1] == 'o' && "Notify Telegram"@[14] == 'm',
{
    reveal_strlit("📺 İzle");
    reveal_strlit("📺 Watch");
    reveal_strlit("Fare:");
    reveal_strlit("Mouse:");
    reveal_strlit("Yeni Client Ekle");
    reveal_strlit("Add New Client");
    reveal_strlit("CANLI EKRAN —");
    reveal_strlit("LIVE SCREEN —");
    reveal_strlit("Kamera verisi bekleniyor...");
    reveal_strlit("Waiting for camera data...");
    reveal_strlit("Kaldır");
    reveal_strlit("Remove");
    reveal_strlit("GÜVENLİK & ANTİ-TESPİT");
    reveal_strlit("SECURITY & ANTI-DETECT");
    reveal_strlit("ⓘ Bu ayarlar bot tespitini zorlaştırmak için geliştirilmiştir.");
    reveal_strlit("ⓘ These settings are developed to prevent bot detection.");
    reveal_strlit("Anti-Tespit Modu");
    reveal_strlit("Anti-Detect Mode");
    reveal_strlit("İnsan davranışını taklit eder");
    reveal_strlit("Simulates human behavior");
    reveal_strlit("Rastgele Gecikme");
    reveal_strlit("Random Delay");
    reveal_strlit("Tıklamalar arasına rastgele ms ekler");
    reveal_strlit("Adds random ms between clicks");
    reveal_strlit("OBS Bypass");
    reveal_strlit("Yayın programlarında botu gizler");
    reveal_strlit("Hides bot in streaming software");
    reveal_strlit("Donanım (Mouse) Sürücüsü");
    reveal_strlit("Hardware (Mouse) Driver");
    reveal_strlit("MOLA SİSTEMİ");
    reveal_strlit("BREAK SYSTEM");
    reveal_strlit("Her");
    reveal_strlit("Every");
    reveal_strlit("dakikada bir");
    reveal_strlit("minutes");
    reveal_strlit("dakika mola ver.");
    reveal_strlit("minutes break.");
    reveal_strlit("BİLDİRİMLER");
    reveal_strlit("NOTIFICATIONS");
    reveal_strlit("Uygulama İçi Uyarılar");
    reveal_strlit("In-App Alerts");
    reveal_strlit("Sesli Bildirim");
    reveal_strlit("Sound Notification");
    reveal_strlit("Telegram'a Bildir");
    reveal_strlit("Notify Telegram");
}

/// Length and first, second and last characters of texts of the table.
proof fn lemma_text_marks_5()
    ensures
        "Webhook URL:"@.len() == 12 && "Webhook URL:"@[0] == 'W' && "Webhook URL:"@[1] == 'e' && "Webhook URL:"@[11] == ':',
        "Test Mesajı Gönder"@.len() == 18 && "Test Mesajı Gönder"@[0] == 'T' && "Test Mesajı Gönder"@[1] == 'e' && "Test Mesajı Gönder"@[17] == 'r',
        "Send Test Message"@.len() == 17 && "Send Test Message"@[0] == 'S' && "Send Test Message"@[1] == 'e' && "Send Test Message"@[16] == 'e',
        "KISAYOL TUŞLARI"@.len() == 15 && "KISAYOL TUŞLARI"@[0] == 'K' && "KISAYOL TUŞLARI"@[1] == 'I' && "KISAYOL TUŞLARI"@[14] == 'I',
        "HOTKEYS"@.len() == 7 && "HOTKEYS"@[0] == 'H' && "HOTKEYS"@[1] == 'O' && "HOTKEYS"@[6] == 'S',
        "Bot Başlat/Durdur"@.len() == 17 && "Bot Başlat/Durdur"@[0] == 'B' && "Bot Başlat/Durdur"@[1] == 'o' && "Bot Başlat/Durdur"@[16] == 'r',
        "Start/Stop Bot"@.len() == 14 && "Start/Stop Bot"@[0] == 'S' && "Start/Stop Bot"@[1] == 't' && "Start/Stop Bot"@[13] == 't',
        "Log Temizle"@.len() == 11 && "Log Temizle"@[0] == 'L' && "Log Temizle"@[1] == 'o' && "Log Temizle"@[10] == 'e',
        "Clear Logs"@.len() == 10 && "Clear Logs"@[0] == 'C' && "Clear Logs"@[1] == 'l' && "Clear Logs"@[9] == 's',
        "Ekran Görüntüsü"@.len() == 15 && "Ekran Görüntüsü"@[0] == 'E' && "Ekran Görüntüsü"@[1] == 'k' && "Ekran Görüntüsü"@[14] == 'ü',
        "Screenshot"@.len() == 10 && "Screenshot"@[0] == 'S' && "Screenshot"@[1] == 'c' && "Screenshot"@[9] == 't',
        "GÖRÜNÜM AYARI"@.len() == 13 && "GÖRÜNÜM AYARI"@[0] == 'G' && "GÖRÜNÜM AYARI"@[1] == 'Ö' && "GÖRÜNÜM AYARI"@[12] == 'I',
        "APPEARANCE SETTINGS"@.len() == 19 && "APPEARANCE SETTINGS"@[0] == 'A' && "APPEARANCE SETTINGS"@[1] == 'P' && "APPEARANCE SETTINGS"@[18] == 'S',
        "Tema Rengi"@.len() == 10 && "Tema Rengi"@[0] == 'T' && "Tema Rengi"@[1] == 'e' && "Tema Rengi"@[9] == 'i',
        "Theme Color"@.len() == 11 && "Theme Color"@[0] == 'T' && "Theme Color"@[1] == 'h' && "Theme Color"@[10] == 'r',
        "GUI PENCERE BOYUTU"@.len() == 18 && "GUI PENCERE BOYUTU"@[0] == 'G' && "GUI PENCERE BOYUTU"@[1] == 'U' && "GUI PENCERE BOYUTU"@[17] == 'U',
        "GUI WINDOW SIZE"@.len() == 15 && "GUI WINDOW SIZE"@[0] == 'G' && "GUI WINDOW SIZE"@[1] == 'U' && "GUI WINDOW SIZE"@[14] == 'E',
        "Hazır Şablonlar:"@.len() == 16 && "Hazır Şablonlar:"@[0] == 'H' && "Hazır Şablonlar:"@[1] == 'a' && "Hazır Şablonlar:"@[15] == ':',
        "Presets:"@.len() == 8 && "Presets:"@[0] == 'P' && "Presets:"@[1] == 'r' && "Presets:"@[7] == ':',
        "Özel Boyut:"@.len() == 11 && "Özel Boyut:"@[0] == 'Ö' && "Özel Boyut:"@[1] == 'z' && "Özel Boyut:"@[10] == ':',
        "Custom Size:"@.len() == 12 && "Custom Size:"@[0] == 'C' && "Custom Size:"@[1] == 'u' && "Custom Size:"@[11] == ':',
        "Genişlik:"@.len() == 9 && "Genişlik:"@[0] == 'G' && "Genişlik:"@[1] == 'e' && "Genişlik:"@[8] == ':',
        "Width:"@.len() == 6 && "Width:"@[0] == 'W' && "Width:"@[1] == 'i' && "Width:"@[5] == ':',
        "Yükseklik:"@.len() == 10 && "Yükseklik:"@[0] == 'Y' && "Yükseklik:"@[1] == 'ü' && "Yükseklik:"@[9] == ':',
        "Height:"@.len() == 7 && "Height:"@[0] == 'H' && "Height:"@[1] == 'e' && "Height:"@[6] == ':',
        "Uygula"@.len() == 6 && "Uygula"@[0] == 'U' && "Uygula"@[1] == 'y' && "Uygula"@[5] == 'a',
        "Apply"@.len() == 5 && "Apply"@[0] == 'A' && "Apply"@[1] == 'p' && "Apply"@[4] == 'y',
        "SİSTEM KAYITLARI"@.len() == 16 && "SİSTEM KAYITLARI"@[0] == 'S' && "SİSTEM KAYITLARI"@[1] == 'İ' && "SİSTEM KAYITLARI"@[15] == 'I',
        "SYSTEM LOGS"@.len() == 11 && "SYSTEM LOGS"@[0] == 'S' && "SYSTEM LOGS"@[1] == 'Y' && "SYSTEM LOGS"@[10] == 'S',
        "Kayıtlar (Logs)"@.len() == 15 && "Kayıtlar (Logs)"@[0] == 'K' && "Kayıtlar (Logs)"@[1] == 'a' && "Kayıtlar (Logs)"@[14] == ')',
        "Gerçek zamanlı bot etkinlik akışı"@.len() == 33 && "Gerçek zamanlı bot etkinlik akışı"@[0] == 'G' && "Gerçek zamanlı bot etkinlik akışı"@[1] == 'e' && "Gerçek zamanlı bot etkinlik akışı"@[32] == 'ı',
        "Real-time bot event stream"@.len() == 26 && "Real-time bot event stream"@[0] == 'R' && "Real-time bot event stream"@[1] == 'e' && "Real-time bot event stream"@[25] == 'm',
        "🔍 Log ara..."@.len() == 12 && "🔍 Log ara..."@[0] == '🔍' && "🔍 Log ara..."@[1] == ' ' && "🔍 Log ara..."@[11] == '.',
        "🔍 Search logs..."@.len() == 16 && "🔍 Search logs..."@[0] == '🔍' && "🔍 Search logs..."@[1] == ' ' && "🔍 Search logs..."@[15] == '.',
        "Tümü"@.len() == 4 && "Tümü"@[0] == 'T' && "Tümü"@[1] == 'ü' && "Tümü"@[3] == 'ü',
        "All"@.len() == 3 && "All"@[0] == 'A' && "All"@[1] == 'l' && "All"@[2] == 'l',
        "Temizle"@.len() == 7 && "Temizle"@[0] == 'T' && "Temizle"@[1] == 'e' && "Temizle"@[6] == 'e',
        "Clear"@.len() == 5 && "Clear"@[0] == 'C' && "Clear"@[1] == 'l' && "Clear"@[4] == 'r',
        "kayıt"@.len() == 5 && "kayıt"@[0] == 'k' && "kayıt"@[1] == 'a' && "kayıt"@[4] == 't',
        "records"@.len() == 7 && "records"@[0] == 'r' && "records"@[1] == 'e' && "records"@[6] == 's',
        "Log kaydı bulunmadı."@.len() == 20 && "Log kaydı bulunmadı."@[0] == 'L' && "Log kaydı bulunmadı."@[1] == 'o' && "Log kaydı bulunmadı."@[19] == '.',
        "No logs found."@.len() == 14 && "No logs found."@[0] == 'N' && "No logs found."@[1] == 'o' && "No logs found."@[13] == '.',
{
    reveal_strlit("Webhook URL:");
    reveal_strlit("Test Mesajı Gönder");
    reveal_strlit("Send Test Message");
    reveal_strlit("KISAYOL TUŞLARI");
    reveal_strlit("HOTKEYS");
    reveal_strlit("Bot Başlat/Durdur");
    reveal_strlit("Start/Stop Bot");
    reveal_strlit("Log Temizle");
    reveal_strlit("Clear Logs");
    reveal_strlit("Ekran Görüntüsü");
    reveal_strlit("Screenshot");
    reveal_strlit("GÖRÜNÜM AYARI");
    reveal_strlit("APPEARANCE SETTINGS");
    reveal_strlit("Tema Rengi");
    reveal_strlit("Theme Color");
    reveal_strlit("GUI PENCERE BOYUTU");
    reveal_strlit("GUI WINDOW SIZE");
    reveal_strlit("Hazır Şablonlar:");
    reveal_strlit("Presets:");
    reveal_strlit("Özel Boyut:");
    reveal_strlit("Custom Size:");
    reveal_strlit("Genişlik:");
    reveal_strlit("Width:");
    reveal_strlit("Yükseklik:");
    reveal_strlit("Height:");
    reveal_strlit("Uygula");
    reveal_strlit("Apply");
    reveal_strlit("SİSTEM KAYITLARI");
    reveal_strlit("SYSTEM LOGS");
    reveal_strlit("Kayıtlar (Logs)");
    reveal_strlit("Gerçek zamanlı bot etkinlik akışı");
    reveal_strlit("Real-time bot event stream");
    reveal_strlit("🔍 Log ara...");
    reveal_strlit("🔍 Search logs...");
    reveal_strlit("Tümü");
    reveal_strlit("All");
    reveal_strlit("Temizle");
    reveal_strlit("Clear");
    reveal_strlit("kayıt");
    reveal_strlit("records");
    reveal_strlit("Log kaydı bulunmadı.");
    reveal_strlit("No logs found.");
}

/// English texts of the table that translate to themselves.
proof fn lemma_english_settled_0()
    ensures
        english_of("Overview"@) == "Overview"@,
        english_of("Farming"@) == "Farming"@,
        english_of("Skills"@) == "Skills"@,
        english_of("Items"@) == "Items"@,
        english_of("Captcha"@) == "Captcha"@,
        english_of("OCR"@) == "OCR"@,
        english_of("Multi-Client"@) == "Multi-Client"@,
        english_of("Settings"@) == "Settings"@,
        english_of("Logs"@) == "Logs"@,
        english_of("↪ Logout"@) == "↪ Logout"@,
        english_of("‹ Minimize"@) == "‹ Minimize"@,
        english_of("Dashboard"@) == "Dashboard"@,
{
    lemma_text_marks_0();
    lemma_text_marks_1();
    lemma_text_marks_2();
    lemma_text_marks_3();
    lemma_text_marks_4();
    lemma_text_marks_5();
}

/// English texts of the table that translate to themselves.
proof fn lemma_english_settled_1()
    ensures
        english_of("Connected"@) == "Connected"@,
        english_of("⊙  LOGIN"@) == "⊙  LOGIN"@,
        english_of("Please fill all fields."@) == "Please fill all fields."@,
        english_of("Invalid username or password."@) == "Invalid username or password."@,
        english_of("Remember Me"@) == "Remember Me"@,
        english_of("Don't have an account?"@) == "Don't have an account?"@,
        english_of("Buy license"@) == "Buy license"@,
        english_of("K-BOT MINI"@) == "K-BOT MINI"@,
        english_of("Status: Active"@) == "Status: Active"@,
        english_of("Status: Stopped"@) == "Status: Stopped"@,
        english_of("Maximize"@) == "Maximize"@,
        english_of("▶  START"@) == "▶  START"@,
{
    lemma_text_marks_0();
    lemma_text_marks_1();
    lemma_text_marks_2();
    lemma_text_marks_3();
    lemma_text_marks_4();
    lemma_text_marks_5();
}

/// English texts of the table that translate to themselves.
proof fn lemma_english_settled_2()
    ensures
        english_of("⏹  STOP"@) == "⏹  STOP"@,
        english_of("💾 Save Settings"@) == "💾 Save Settings"@,
        english_of("🎯 Test Click"@) == "🎯 Test Click"@,
        english_of("🗑 Clear"@) == "🗑 Clear"@,
        english_of("Active"@) == "Active"@,
        english_of("Inactive"@) == "Inactive"@,
        english_of("BOT STATUS"@) == "BOT STATUS"@,
        english_of("System idle"@) == "System idle"@,
        english_of("Running"@) == "Running"@,
        english_of("STATISTICS"@) == "STATISTICS"@,
        english_of("Mined Stones"@) == "Mined Stones"@,
        english_of("Missed"@) == "Missed"@,
{
    lemma_text_marks_0();
    lemma_text_marks_1();
    lemma_text_marks_2();
    lemma_text_marks_3();
    lemma_text_marks_4();
    lemma_text_marks_5();
}

/// English texts of the table that translate to themselves.
proof fn lemma_english_settled_3()
    ensures
        english_of("Solved Captchas"@) == "Solved Captchas"@,
        english_of("Uptime"@) == "Uptime"@,
        english_of("PERFORMANCE (LAST HOUR)"@) == "PERFORMANCE (LAST HOUR)"@,
        english_of("Mined Stones Graph"@) == "Mined Stones Graph"@,
        english_of("CURRENT MAP"@) == "CURRENT MAP"@,
        english_of("Real-time bot status and statistics"@) == "Real-time bot status and statistics"@,
        english_of("last hour"@) == "last hour"@,
        english_of("Live"@) == "Live"@,
        english_of("Collecting data..."@) == "Collecting data..."@,
        english_of("Last minute"@) == "Last minute"@,
        english_of("Max:"@) == "Max:"@,
        english_of("Farming Settings"@) == "Farming Settings"@,
{
    lemma_text_marks_0();
    lemma_text_marks_1();
    lemma_text_marks_2();
    lemma_text_marks_3();
    lemma_text_marks_4();
    lemma_text_marks_5();
}

/// English texts of the table that translate to themselves.
proof fn lemma_english_settled_4()
    ensures
        english_of("Combat, target, and zone configuration"@) == "Combat, target, and zone configuration"@,
        english_of("TARGET METIN STONES"@) == "TARGET METIN STONES"@,
        english_of("ITEM PICKUP"@) == "ITEM PICKUP"@,
        english_of("Pickup"@) == "Pickup"@,
        english_of("Key"@) == "Key"@,
        english_of("SKILLS & BUFFS"@) == "SKILLS & BUFFS"@,
        english_of("Key and Cooldown (sec)"@) == "Key and Cooldown (sec)"@,
        english_of("Potion Automation"@) == "Potion Automation"@,
        english_of("Item Filter"@) == "Item Filter"@,
        english_of("Looting rules"@) == "Looting rules"@,
        english_of("This section will be added later."@) == "This section will be added later."@,
        english_of("ITEMS TO USE"@) == "ITEMS TO USE"@,
{
    lemma_text_marks_0();
    lemma_text_marks_1();
    lemma_text_marks_2();
    lemma_text_marks_3();
    lemma_text_marks_4();
    lemma_text_marks_5();
}

/// English texts of the table that translate to themselves.
proof fn lemma_english_settled_5()
    ensures
        english_of("Captcha Statistics"@) == "Captcha Statistics"@,
        english_of("Captcha solve success rates"@) == "Captcha solve success rates"@,
        english_of("SUCCESS"@) == "SUCCESS"@,
        english_of("FAILED"@) == "FAILED"@,
        english_of("TOTAL"@) == "TOTAL"@,
        english_of("Total captchas"@) == "Total captchas"@,
        english_of("SUCCESS RATE"@) == "SUCCESS RATE"@,
        english_of("Success:"@) == "Success:"@,
        english_of("Failed:"@) == "Failed:"@,
        english_of("Reset Captcha Logs"@) == "Reset Captcha Logs"@,
        english_of("CAPTCHA SOLVER"@) == "CAPTCHA SOLVER"@,
        english_of("Driver (Engine)"@) == "Driver (Engine)"@,
{
    lemma_text_marks_0();
    lemma_text_marks_1();
    lemma_text_marks_2();
    lemma_text_marks_3();
    lemma_text_marks_4();
    lemma_text_marks_5();
}

/// English texts of the table that translate to themselves.
proof fn lemma_english_settled_6()
    ensures
        english_of("Stop (Play Alarm)"@) == "Stop (Play Alarm)"@,
        english_of("Statistics"@) == "Statistics"@,
        english_of("Rate:"@) == "Rate:"@,
        english_of("OCR & Lock Settings"@) == "OCR & Lock Settings"@,
        english_of("Captcha OCR region and target lock configuration"@) == "Captcha OCR region and target lock configuration"@,
        english_of("CAPTCHA OCR REGION (FIXED)"@) == "CAPTCHA OCR REGION (FIXED)"@,
        english_of("(Fixed)"@) == "(Fixed)"@,
        english_of("OCR region works in these coordinates."@) == "OCR region works in these coordinates."@,
        english_of("TARGET LOCK SETTINGS"@) == "TARGET LOCK SETTINGS"@,
        english_of("📂 Select Template"@) == "📂 Select Template"@,
        english_of("⏳ 3:Top-Left  4:Bot-Right"@) == "⏳ 3:Top-Left  4:Bot-Right"@,
        english_of("🔒 Select Region (3/4)"@) == "🔒 Select Region (3/4)"@,
{
    lemma_text_marks_0();
    lemma_text_marks_1();
    lemma_text_marks_2();
    lemma_text_marks_3();
    lemma_text_marks_4();
    lemma_text_marks_5();
}

/// English texts of the table that translate to themselves.
proof fn lemma_english_settled_7()
    ensures
        english_of("OPEN METIN2 WINDOWS"@) == "OPEN METIN2 WINDOWS"@,
        english_of("Currently open clients managed by the bot."@) == "Currently open clients managed by the bot."@,
        english_of("Multi-Client Management"@) == "Multi-Client Management"@,
        english_of("Manage multiple game windows"@) == "Manage multiple game windows"@,
        english_of("CLIENT LIST"@) == "CLIENT LIST"@,
        english_of("No clients added yet."@) == "No clients added yet."@,
        english_of("⏳ Select with Shift..."@) == "⏳ Select with Shift..."@,
        english_of("🎯 Select PID"@) == "🎯 Select PID"@,
        english_of("📺 Close"@) == "📺 Close"@,
        english_of("📺 Watch"@) == "📺 Watch"@,
        english_of("Mouse:"@) == "Mouse:"@,
        english_of("Add New Client"@) == "Add New Client"@,
{
    lemma_text_marks_0();
    lemma_text_marks_1();
    lemma_text_marks_2();
    lemma_text_marks_3();
    lemma_text_marks_4();
    lemma_text_marks_5();
}

/// English texts of the table that translate to themselves.
proof fn lemma_english_settled_8()
    ensures
        english_of("LIVE SCREEN —"@) == "LIVE SCREEN —"@,
        english_of("Waiting for camera data..."@) == "Waiting for camera data..."@,
        english_of("Remove"@) == "Remove"@,
        english_of("SECURITY & ANTI-DETECT"@) == "SECURITY & ANTI-DETECT"@,
        english_of("ⓘ These settings are developed to prevent bot detection."@) == "ⓘ These settings are developed to prevent bot detection."@,
        english_of("Anti-Detect Mode"@) == "Anti-Detect Mode"@,
        english_of("Simulates human behavior"@) == "Simulates human behavior"@,
        english_of("Random Delay"@) == "Random Delay"@,
        english_of("Adds random ms between clicks"@) == "Adds random ms between clicks"@,
        english_of("OBS Bypass"@) == "OBS Bypass"@,
        english_of("Hides bot in streaming software"@) == "Hides bot in streaming software"@,
        english_of("Hardware (Mouse) Driver"@) == "Hardware (Mouse) Driver"@,
{
    lemma_text_marks_0();
    lemma_text_marks_1();
    lemma_text_marks_2();
    lemma_text_marks_3();
    lemma_text_marks_4();
    lemma_text_marks_5();
}

/// English texts of the table that translate to themselves.
proof fn lemma_english_settled_9()
    ensures
        english_of("BREAK SYSTEM"@) == "BREAK SYSTEM"@,
        english_of("Every"@) == "Every"@,
        english_of("minutes"@) == "minutes"@,
        english_of("minutes break."@) == "minutes break."@,
        english_of("NOTIFICATIONS"@) == "NOTIFICATIONS"@,
        english_of("In-App Alerts"@) == "In-App Alerts"@,
        english_of("Sound Notification"@) == "Sound Notification"@,
        english_of("Notify Telegram"@) == "Notify Telegram"@,
        english_of("Webhook URL:"@) == "Webhook URL:"@,
        english_of("Send Test Message"@) == "Send Test Message"@,
        english_of("HOTKEYS"@) == "HOTKEYS"@,
        english_of("Start/Stop Bot"@) == "Start/Stop Bot"@,
{
    lemma_text_marks_0();
    lemma_text_marks_1();
    lemma_text_marks_2();
    lemma_text_marks_3();
    lemma_text_marks_4();
    lemma_text_marks_5();
}

/// English texts of the table that translate to themselves.
proof fn lemma_english_settled_10()
    ensures
        english_of("Clear Logs"@) == "Clear Logs"@,
        english_of("Screenshot"@) == "Screenshot"@,
        english_of("APPEARANCE SETTINGS"@) == "APPEARANCE SETTINGS"@,
        english_of("Theme Color"@) == "Theme Color"@,
        english_of("GUI WINDOW SIZE"@) == "GUI WINDOW SIZE"@,
        english_of("Presets:"@) == "Presets:"@,
        english_of("Custom Size:"@) == "Custom Size:"@,
        english_of("Width:"@) == "Width:"@,
        english_of("Height:"@) == "Height:"@,
        english_of("Apply"@) == "Apply"@,
        english_of("SYSTEM LOGS"@) == "SYSTEM LOGS"@,
        english_of("Real-time bot event stream"@) == "Real-time bot event stream"@,
{
    lemma_text_marks_0();
    lemma_text_marks_1();
    lemma_text_marks_2();
    lemma_text_marks_3();
    lemma_text_marks_4();
    lemma_text_marks_5();
}

/// English texts of the table that translate to themselves.
proof fn lemma_english_settled_11()
    ensures
        english_of("🔍 Search logs..."@) == "🔍 Search logs..."@,
        english_of("All"@) == "All"@,
        english_of("Clear"@) == "Clear"@,
        english_of("records"@) == "records"@,
        english_of("No logs found."@) == "No logs found."@,
{
    lemma_text_marks_0();
    lemma_text_marks_1();
    lemma_text_marks_2();
    lemma_text_marks_3();
    lemma_text_marks_4();
    lemma_text_marks_5();
}

/// Number of entries of the translation glossary.
pub const GLOSSARY_LEN: usize = 138;

/// Entry `i` of the translation glossary, in table order: a Turkish
/// interface text and the English text it is shown as.
pub open spec fn glossary_entry(i: int) -> (Seq<char>, Seq<char>) {
    if i == 0 {
        ("Genel Bakış"@, "Overview"@)
    } else if i == 1 {
        ("Farming"@, "Farming"@)
    } else if i == 2 {
        ("Yetenekler"@, "Skills"@)
    } else if i == 3 {
        ("Eşyalar"@, "Items"@)
    } else if i == 4 {
        ("Captcha"@, "Captcha"@)
    } else if i == 5 {
        ("OCR"@, "OCR"@)
    } else if i == 6 {
        ("Çoklu Client"@, "Multi-Client"@)
    } else if i == 7 {
        ("Ayarlar"@, "Settings"@)
    } else if i == 8 {
        ("Kayıtlar"@, "Logs"@)
    } else if i == 9 {
        ("↪ Çıkış Yap"@, "↪ Logout"@)
    } else if i == 10 {
        ("‹ Küçült"@, "‹ Minimize"@)
    } else if i == 11 {
        ("Dashboard"@, "Dashboard"@)
    } else if i == 12 {
        ("Bağlı"@, "Connected"@)
    } else if i == 13 {
        ("⊙  GİRİŞ YAP"@, "⊙  LOGIN"@)
    } else if i == 14 {
        ("Lütfen tüm alanları doldurun."@, "Please fill all fields."@)
    } else if i == 15 {
        ("Geçersiz kullanıcı adı veya şifre."@, "Invalid username or password."@)
    } else if i == 16 {
        ("Beni Hatırla"@, "Remember Me"@)
    } else if i == 17 {
        ("Hesabınız yok mu?"@, "Don't have an account?"@)
    } else if i == 18 {
        ("Lisans satın al"@, "Buy license"@)
    } else if i == 19 {
        ("K-BOT MINI"@, "K-BOT MINI"@)
    } else if i == 20 {
        ("Durum: Aktif"@, "Status: Active"@)
    } else if i == 21 {
        ("Durum: Durduruldu"@, "Status: Stopped"@)
    } else if i == 22 {
        ("Büyüt"@, "Maximize"@)
    } else if i == 23 {
        ("▶  BAŞLAT"@, "▶  START"@)
    } else if i == 24 {
        ("⏹  DURDUR"@, "⏹  STOP"@)
    } else if i == 25 {
        ("💾 Ayarları Kaydet"@, "💾 Save Settings"@)
    } else if i == 26 {
        ("🎯 Test Tıklama"@, "🎯 Test Click"@)
    } else if i == 27 {
        ("🗑 Temizle"@, "🗑 Clear"@)
    } else if i == 28 {
        ("Aktif"@, "Active"@)
    } else if i == 29 {
        ("Pasif"@, "Inactive"@)
    } else if i == 30 {
        ("BOT DURUMU"@, "BOT STATUS"@)
    } else if i == 31 {
        ("Sistem boşta"@, "System idle"@)
    } else if i == 32 {
        ("Çalışıyor"@, "Running"@)
    } else if i == 33 {
        ("İSTATİSTİKLER"@, "STATISTICS"@)
    } else if i == 34 {
        ("Kırılan Taş"@, "Mined Stones"@)
    } else if i == 35 {
        ("Iskalanan"@, "Missed"@)
    } else if i == 36 {
        ("Çözülen Captcha"@, "Solved Captchas"@)
    } else if i == 37 {
        ("Çalışma Süresi"@, "Uptime"@)
    } else if i == 38 {
        ("SON SAATTEKİ PERFORMANS"@, "PERFORMANCE (LAST HOUR)"@)
    } else if i == 39 {
        ("Kırılan Taş Grafiği"@, "Mined Stones Graph"@)
    } else if i == 40 {
        ("MEVCUT HARİTA"@, "CURRENT MAP"@)
    } else if i == 41 {
        ("Gerçek zamanlı bot durumu ve istatistikler"@, "Real-time bot status and statistics"@)
    } else if i == 42 {
        ("son saatte"@, "last hour"@)
    } else if i == 43 {
        ("Canlı"@, "Live"@)
    } else if i == 44 {
        ("Veri toplanıyor..."@, "Collecting data..."@)
    } else if i == 45 {
        ("Son dakika"@, "Last minute"@)
    } else if i == 46 {
        ("Max:"@, "Max:"@)
    } else if i == 47 {
        ("Farming Ayarları"@, "Farming Settings"@)
    } else if i == 48 {
        ("Savaş, hedef ve bölge konfigürasyonu"@, "Combat, target, and zone configuration"@)
    } else if i == 49 {
        ("HEDEF METİN TAŞLARI"@, "TARGET METIN STONES"@)
    } else if i == 50 {
        ("EŞYA TOPLAMA"@, "ITEM PICKUP"@)
    } else if i == 51 {
        ("Topla"@, "Pickup"@)
    } else if i == 52 {
        ("Tuş"@, "Key"@)
    } else if i == 53 {
        ("YETENEKLER & BUFFLAR"@, "SKILLS & BUFFS"@)
    } else if i == 54 {
        ("Tuş ve Bekleme Süresi (sn)"@, "Key and Cooldown (sec)"@)
    } else if i == 55 {
        ("İksir Otomasyonu"@, "Potion Automation"@)
    } else if i == 56 {
        ("Eşya Filtresi"@, "Item Filter"@)
    } else if i == 57 {
        ("Düşen eşya toplama kuralları"@, "Looting rules"@)
    } else if i == 58 {
        ("Bu bölüm ileride eklenecektir."@, "This section will be added later."@)
    } else if i == 59 {
        ("KULLANILACAK EŞYALAR"@, "ITEMS TO USE"@)
    } else if i == 60 {
        ("Captcha İstatistikleri"@, "Captcha Statistics"@)
    } else if i == 61 {
        ("Captcha çözüm başarı oranları"@, "Captcha solve success rates"@)
    } else if i == 62 {
        ("BAŞARILI"@, "SUCCESS"@)
    } else if i == 63 {
        ("BAŞARISIZ"@, "FAILED"@)
    } else if i == 64 {
        ("TOPLAM"@, "TOTAL"@)
    } else if i == 65 {
        ("Toplam captcha"@, "Total captchas"@)
    } else if i == 66 {
        ("BAŞARI ORANI"@, "SUCCESS RATE"@)
    } else if i == 67 {
        ("Başarı:"@, "Success:"@)
    } else if i == 68 {
        ("Başarısız:"@, "Failed:"@)
    } else if i == 69 {
        ("Captcha Loglarını Sıfırla"@, "Reset Captcha Logs"@)
    } else if i == 70 {
        ("CAPTCHA ÇÖZÜCÜ"@, "CAPTCHA SOLVER"@)
    } else if i == 71 {
        ("Sürücü (Motor)"@, "Driver (Engine)"@)
    } else if i == 72 {
        ("Durdur (Alarm Çal)"@, "Stop (Play Alarm)"@)
    } else if i == 73 {
        ("İstatistikler"@, "Statistics"@)
    } else if i == 74 {
        ("Oran:"@, "Rate:"@)
    } else if i == 75 {
        ("OCR & Kilit Ayarları"@, "OCR & Lock Settings"@)
    } else if i == 76 {
        ("Captcha OCR alanı ve hedef kilit konfigürasyonu"@, "Captcha OCR region and target lock configuration"@)
    } else if i == 77 {
        ("CAPTCHA OCR ALANI (SABİT)"@, "CAPTCHA OCR REGION (FIXED)"@)
    } else if i == 78 {
        ("(Sabit)"@, "(Fixed)"@)
    } else if i == 79 {
        ("OCR alanı bu koordinatlarda çalışır."@, "OCR region works in these coordinates."@)
    } else if i == 80 {
        ("HEDEF KİLİT AYARLARI"@, "TARGET LOCK SETTINGS"@)
    } else if i == 81 {
        ("📂 Şablon Seç"@, "📂 Select Template"@)
    } else if i == 82 {
        ("⏳ 3:Sol üst  4:Sağ alt"@, "⏳ 3:Top-Left  4:Bot-Right"@)
    } else if i == 83 {
        ("🔒 Bölge Seç (3/4)"@, "🔒 Select Region (3/4)"@)
    } else if i == 84 {
        ("AÇIK METİN2 PENCERELERİ"@, "OPEN METIN2 WINDOWS"@)
    } else if i == 85 {
        ("Mevcut açık ve bot tarafından yönetilen clientler."@, "Currently open clients managed by the bot."@)
    } else if i == 86 {
        ("Çoklu Client Yönetimi"@, "Multi-Client Management"@)
    } else if i == 87 {
        ("Birden fazla oyun penceresini yönetin"@, "Manage multiple game windows"@)
    } else if i == 88 {
        ("CLIENT LİSTESİ"@, "CLIENT LIST"@)
    } else if i == 89 {
        ("Henüz client eklenmedi."@, "No clients added yet."@)
    } else if i == 90 {
        ("⏳ Shift ile seç..."@, "⏳ Select with Shift..."@)
    } else if i == 91 {
        ("🎯 PID Seç"@, "🎯 Select PID"@)
    } else if i == 92 {
        ("📺 Kapat"@, "📺 Close"@)
    } else if i == 93 {
        ("📺 İzle"@, "📺 Watch"@)
    } else if i == 94 {
        ("Fare:"@, "Mouse:"@)
    } else if i == 95 {
        ("Yeni Client Ekle"@, "Add New Client"@)
    } else if i == 96 {
        ("CANLI EKRAN —"@, "LIVE SCREEN —"@)
    } else if i == 97 {
        ("Kamera verisi bekleniyor..."@, "Waiting for camera data..."@)
    } else if i == 98 {
        ("Kaldır"@, "Remove"@)
    } else if i == 99 {
        ("GÜVENLİK & ANTİ-TESPİT"@, "SECURITY & ANTI-DETECT"@)
    } else if i == 100 {
        ("ⓘ Bu ayarlar bot tespitini zorlaştırmak için geliştirilmiştir."@, "ⓘ These settings are developed to prevent bot detection."@)
    } else if i == 101 {
        ("Anti-Tespit Modu"@, "Anti-Detect Mode"@)
    } else if i == 102 {
        ("İnsan davranışını taklit eder"@, "Simulates human behavior"@)
    } else if i == 103 {
        ("Rastgele Gecikme"@, "Random Delay"@)
    } else if i == 104 {
        ("Tıklamalar arasına rastgele ms ekler"@, "Adds random ms between clicks"@)
    } else if i == 105 {
        ("OBS Bypass"@, "OBS Bypass"@)
    } else if i == 106 {
        ("Yayın programlarında botu gizler"@, "Hides bot in streaming software"@)
    } else if i == 107 {
        ("Donanım (Mouse) Sürücüsü"@, "Hardware (Mouse) Driver"@)
    } else if i == 108 {
        ("MOLA SİSTEMİ"@, "BREAK SYSTEM"@)
    } else if i == 109 {
        ("Her"@, "Every"@)
    } else if i == 110 {
        ("dakikada bir"@, "minutes"@)
    } else if i == 111 {
        ("dakika mola ver."@, "minutes break."@)
    } else if i == 112 {
        ("BİLDİRİMLER"@, "NOTIFICATIONS"@)
    } else if i == 113 {
        ("Uygulama İçi Uyarılar"@, "In-App Alerts"@)
    } else if i == 114 {
        ("Sesli Bildirim"@, "Sound Notification"@)
    } else if i == 115 {
        ("Telegram'a Bildir"@, "Notify Telegram"@)
    } else if i == 116 {
        ("Webhook URL:"@, "Webhook URL:"@)
    } else if i == 117 {
        ("Test Mesajı Gönder"@, "Send Test Message"@)
    } else if i == 118 {
        ("KISAYOL TUŞLARI"@, "HOTKEYS"@)
    } else if i == 119 {
        ("Bot Başlat/Durdur"@, "Start/Stop Bot"@)
    } else if i == 120 {
        ("Log Temizle"@, "Clear Logs"@)
    } else if i == 121 {
        ("Ekran Görüntüsü"@, "Screenshot"@)
    } else if i == 122 {
        ("GÖRÜNÜM AYARI"@, "APPEARANCE SETTINGS"@)
    } else if i == 123 {
        ("Tema Rengi"@, "Theme Color"@)
    } else if i == 124 {
        ("GUI PENCERE BOYUTU"@, "GUI WINDOW SIZE"@)
    } else if i == 125 {
        ("Hazır Şablonlar:"@, "Presets:"@)
    } else if i == 126 {
        ("Özel Boyut:"@, "Custom Size:"@)
    } else if i == 127 {
        ("Genişlik:"@, "Width:"@)
    } else if i == 128 {
        ("Yükseklik:"@, "Height:"@)
    } else if i == 129 {
        ("Uygula"@, "Apply"@)
    } else if i == 130 {
        ("SİSTEM KAYITLARI"@, "SYSTEM LOGS"@)
    } else if i == 131 {
        ("Kayıtlar (Logs)"@, "Logs"@)
    } else if i == 132 {
        ("Gerçek zamanlı bot etkinlik akışı"@, "Real-time bot event stream"@)
    } else if i == 133 {
        ("🔍 Log ara..."@, "🔍 Search logs..."@)
    } else if i == 134 {
        ("Tümü"@, "All"@)
    } else if i == 135 {
        ("Temizle"@, "Clear"@)
    } else if i == 136 {
        ("kayıt"@, "records"@)
    } else {
        ("Log kaydı bulunmadı."@, "No logs found."@)
    }
}

/// Glossary entries 0 to 11 hold of the translation.
proof fn lemma_glossary_0()
    ensures
        english_of("Genel Bakış"@) == "Overview"@,
        english_of("Farming"@) == "Farming"@,
        english_of("Yetenekler"@) == "Skills"@,
        english_of("Eşyalar"@) == "Items"@,
        english_of("Captcha"@) == "Captcha"@,
        english_of("OCR"@) == "OCR"@,
        english_of("Çoklu Client"@) == "Multi-Client"@,
        english_of("Ayarlar"@) == "Settings"@,
        english_of("Kayıtlar"@) == "Logs"@,
        english_of("↪ Çıkış Yap"@) == "↪ Logout"@,
        english_of("‹ Küçült"@) == "‹ Minimize"@,
        english_of("Dashboard"@) == "Dashboard"@,
{
    lemma_text_marks_0();
    lemma_text_marks_1();
    lemma_text_marks_2();
    lemma_text_marks_3();
    lemma_text_marks_4();
    lemma_text_marks_5();
}

/// Glossary entries 12 to 23 hold of the translation.
proof fn lemma_glossary_1()
    ensures
        english_of("Bağlı"@) == "Connected"@,
        english_of("⊙  GİRİŞ YAP"@) == "⊙  LOGIN"@,
        english_of("Lütfen tüm alanları doldurun."@) == "Please fill all fields."@,
        english_of("Geçersiz kullanıcı adı veya şifre."@) == "Invalid username or password."@,
        english_of("Beni Hatırla"@) == "Remember Me"@,
        english_of("Hesabınız yok mu?"@) == "Don't have an account?"@,
        english_of("Lisans satın al"@) == "Buy license"@,
        english_of("K-BOT MINI"@) == "K-BOT MINI"@,
        english_of("Durum: Aktif"@) == "Status: Active"@,
        english_of("Durum: Durduruldu"@) == "Status: Stopped"@,
        english_of("Büyüt"@) == "Maximize"@,
        english_of("▶  BAŞLAT"@) == "▶  START"@,
{
    lemma_text_marks_0();
    lemma_text_marks_1();
    lemma_text_marks_2();
    lemma_text_marks_3();
    lemma_text_marks_4();
    lemma_text_marks_5();
}

/// Glossary entries 24 to 35 hold of the translation.
proof fn lemma_glossary_2()
    ensures
        english_of("⏹  DURDUR"@) == "⏹  STOP"@,
        english_of("💾 Ayarları Kaydet"@) == "💾 Save Settings"@,
        english_of("🎯 Test Tıklama"@) == "🎯 Test Click"@,
        english_of("🗑 Temizle"@) == "🗑 Clear"@,
        english_of("Aktif"@) == "Active"@,
        english_of("Pasif"@) == "Inactive"@,
        english_of("BOT DURUMU"@) == "BOT STATUS"@,
        english_of("Sistem boşta"@) == "System idle"@,
        english_of("Çalışıyor"@) == "Running"@,
        english_of("İSTATİSTİKLER"@) == "STATISTICS"@,
        english_of("Kırılan Taş"@) == "Mined Stones"@,
        english_of("Iskalanan"@) == "Missed"@,
{
    lemma_text_marks_0();
    lemma_text_marks_1();
    lemma_text_marks_2();
    lemma_text_marks_3();
    lemma_text_marks_4();
    lemma_text_marks_5();
}

/// Glossary entries 36 to 47 hold of the translation.
proof fn lemma_glossary_3()
    ensures
        english_of("Çözülen Captcha"@) == "Solved Captchas"@,
        english_of("Çalışma Süresi"@) == "Uptime"@,
        english_of("SON SAATTEKİ PERFORMANS"@) == "PERFORMANCE (LAST HOUR)"@,
        english_of("Kırılan Taş Grafiği"@) == "Mined Stones Graph"@,
        english_of("MEVCUT HARİTA"@) == "CURRENT MAP"@,
        english_of("Gerçek zamanlı bot durumu ve istatistikler"@) == "Real-time bot status and statistics"@,
        english_of("son saatte"@) == "last hour"@,
        english_of("Canlı"@) == "Live"@,
        english_of("Veri toplanıyor..."@) == "Collecting data..."@,
        english_of("Son dakika"@) == "Last minute"@,
        english_of("Max:"@) == "Max:"@,
        english_of("Farming Ayarları"@) == "Farming Settings"@,
{
    lemma_text_marks_0();
    lemma_text_marks_1();
    lemma_text_marks_2();
    lemma_text_marks_3();
    lemma_text_marks_4();
    lemma_text_marks_5();
}

/// Glossary entries 48 to 59 hold of the translation.
proof fn lemma_glossary_4()
    ensures
        english_of("Savaş, hedef ve bölge konfigürasyonu"@) == "Combat, target, and zone configuration"@,
        english_of("HEDEF METİN TAŞLARI"@) == "TARGET METIN STONES"@,
        english_of("EŞYA TOPLAMA"@) == "ITEM PICKUP"@,
        english_of("Topla"@) == "Pickup"@,
        english_of("Tuş"@) == "Key"@,
        english_of("YETENEKLER & BUFFLAR"@) == "SKILLS & BUFFS"@,
        english_of("Tuş ve Bekleme Süresi (sn)"@) == "Key and Cooldown (sec)"@,
        english_of("İksir Otomasyonu"@) == "Potion Automation"@,
        english_of("Eşya Filtresi"@) == "Item Filter"@,
        english_of("Düşen eşya toplama kuralları"@) == "Looting rules"@,
        english_of("Bu bölüm ileride eklenecektir."@) == "This section will be added later."@,
        english_of("KULLANILACAK EŞYALAR"@) == "ITEMS TO USE"@,
{
    lemma_text_marks_0();
    lemma_text_marks_1();
    lemma_text_marks_2();
    lemma_text_marks_3();
    lemma_text_marks_4();
    lemma_text_marks_5();
}

/// Glossary entries 60 to 71 hold of the translation.
proof fn lemma_glossary_5()
    ensures
        english_of("Captcha İstatistikleri"@) == "Captcha Statistics"@,
        english_of("Captcha çözüm başarı oranları"@) == "Captcha solve success rates"@,
        english_of("BAŞARILI"@) == "SUCCESS"@,
        english_of("BAŞARISIZ"@) == "FAILED"@,
        english_of("TOPLAM"@) == "TOTAL"@,
        english_of("Toplam captcha"@) == "Total captchas"@,
        english_of("BAŞARI ORANI"@) == "SUCCESS RATE"@,
        english_of("Başarı:"@) == "Success:"@,
        english_of("Başarısız:"@) == "Failed:"@,
        english_of("Captcha Loglarını Sıfırla"@) == "Reset Captcha Logs"@,
        english_of("CAPTCHA ÇÖZÜCÜ"@) == "CAPTCHA SOLVER"@,
        english_of("Sürücü (Motor)"@) == "Driver (Engine)"@,
{
    lemma_text_marks_0();
    lemma_text_marks_1();
    lemma_text_marks_2();
    lemma_text_marks_3();
    lemma_text_marks_4();
    lemma_text_marks_5();
}

/// Glossary entries 72 to 83 hold of the translation.
proof fn lemma_glossary_6()
    ensures
        english_of("Durdur (Alarm Çal)"@) == "Stop (Play Alarm)"@,
        english_of("İstatistikler"@) == "Statistics"@,
        english_of("Oran:"@) == "Rate:"@,
        english_of("OCR & Kilit Ayarları"@) == "OCR & Lock Settings"@,
        english_of("Captcha OCR alanı ve hedef kilit konfigürasyonu"@) == "Captcha OCR region and target lock configuration"@,
        english_of("CAPTCHA OCR ALANI (SABİT)"@) == "CAPTCHA OCR REGION (FIXED)"@,
        english_of("(Sabit)"@) == "(Fixed)"@,
        english_of("OCR alanı bu koordinatlarda çalışır."@) == "OCR region works in these coordinates."@,
        english_of("HEDEF KİLİT AYARLARI"@) == "TARGET LOCK SETTINGS"@,
        english_of("📂 Şablon Seç"@) == "📂 Select Template"@,
        english_of("⏳ 3:Sol üst  4:Sağ alt"@) == "⏳ 3:Top-Left  4:Bot-Right"@,
        english_of("🔒 Bölge Seç (3/4)"@) == "🔒 Select Region (3/4)"@,
{
    lemma_text_marks_0();
    lemma_text_marks_1();
    lemma_text_marks_2();
    lemma_text_marks_3();
    lemma_text_marks_4();
    lemma_text_marks_5();
}

/// Glossary entries 84 to 95 hold of the translation.
proof fn lemma_glossary_7()
    ensures
        english_of("AÇIK METİN2 PENCERELERİ"@) == "OPEN METIN2 WINDOWS"@,
        english_of("Mevcut açık ve bot tarafından yönetilen clientler."@) == "Currently open clients managed by the bot."@,
        english_of("Çoklu Client Yönetimi"@) == "Multi-Client Management"@,
        english_of("Birden fazla oyun penceresini yönetin"@) == "Manage multiple game windows"@,
        english_of("CLIENT LİSTESİ"@) == "CLIENT LIST"@,
        english_of("Henüz client eklenmedi."@) == "No clients added yet."@,
        english_of("⏳ Shift ile seç..."@) == "⏳ Select with Shift..."@,
        english_of("🎯 PID Seç"@) == "🎯 Select PID"@,
        english_of("📺 Kapat"@) == "📺 Close"@,
        english_of("📺 İzle"@) == "📺 Watch"@,
        english_of("Fare:"@) == "Mouse:"@,
        english_of("Yeni Client Ekle"@) == "Add New Client"@,
{
    lemma_text_marks_0();
    lemma_text_marks_1();
    lemma_text_marks_2();
    lemma_text_marks_3();
    lemma_text_marks_4();
    lemma_text_marks_5();
}

/// Glossary entries 96 to 107 hold of the translation.
proof fn lemma_glossary_8()
    ensures
        english_of("CANLI EKRAN —"@) == "LIVE SCREEN —"@,
        english_of("Kamera verisi bekleniyor..."@) == "Waiting for camera data..."@,
        english_of("Kaldır"@) == "Remove"@,
        english_of("GÜVENLİK & ANTİ-TESPİT"@) == "SECURITY & ANTI-DETECT"@,
        english_of("ⓘ Bu ayarlar bot tespitini zorlaştırmak için geliştirilmiştir."@) == "ⓘ These settings are developed to prevent bot detection."@,
        english_of("Anti-Tespit Modu"@) == "Anti-Detect Mode"@,
        english_of("İnsan davranışını taklit eder"@) == "Simulates human behavior"@,
        english_of("Rastgele Gecikme"@) == "Random Delay"@,
        english_of("Tıklamalar arasına rastgele ms ekler"@) == "Adds random ms between clicks"@,
        english_of("OBS Bypass"@) == "OBS Bypass"@,
        english_of("Yayın programlarında botu gizler"@) == "Hides bot in streaming software"@,
        english_of("Donanım (Mouse) Sürücüsü"@) == "Hardware (Mouse) Driver"@,
{
    lemma_text_marks_0();
    lemma_text_marks_1();
    lemma_text_marks_2();
    lemma_text_marks_3();
    lemma_text_marks_4();
    lemma_text_marks_5();
}

/// Glossary entries 108 to 119 hold of the translation.
proof fn lemma_glossary_9()
    ensures
        english_of("MOLA SİSTEMİ"@) == "BREAK SYSTEM"@,
        english_of("Her"@) == "Every"@,
        english_of("dakikada bir"@) == "minutes"@,
        english_of("dakika mola ver."@) == "minutes break."@,
        english_of("BİLDİRİMLER"@) == "NOTIFICATIONS"@,
        english_of("Uygulama İçi Uyarılar"@) == "In-App Alerts"@,
        english_of("Sesli Bildirim"@) == "Sound Notification"@,
        english_of("Telegram'a Bildir"@) == "Notify Telegram"@,
        english_of("Webhook URL:"@) == "Webhook URL:"@,
        english_of("Test Mesajı Gönder"@) == "Send Test Message"@,
        english_of("KISAYOL TUŞLARI"@) == "HOTKEYS"@,
        english_of("Bot Başlat/Durdur"@) == "Start/Stop Bot"@,
{
    lemma_text_marks_0();
    lemma_text_marks_1();
    lemma_text_marks_2();
    lemma_text_marks_3();
    lemma_text_marks_4();
    lemma_text_marks_5();
}

/// Glossary entries 120 to 131 hold of the translation.
proof fn lemma_glossary_10()
    ensures
        english_of("Log Temizle"@) == "Clear Logs"@,
        english_of("Ekran Görüntüsü"@) == "Screenshot"@,
        english_of("GÖRÜNÜM AYARI"@) == "APPEARANCE SETTINGS"@,
        english_of("Tema Rengi"@) == "Theme Color"@,
        english_of("GUI PENCERE BOYUTU"@) == "GUI WINDOW SIZE"@,
        english_of("Hazır Şablonlar:"@) == "Presets:"@,
        english_of("Özel Boyut:"@) == "Custom Size:"@,
        english_of("Genişlik:"@) == "Width:"@,
        english_of("Yükseklik:"@) == "Height:"@,
        english_of("Uygula"@) == "Apply"@,
        english_of("SİSTEM KAYITLARI"@) == "SYSTEM LOGS"@,
        english_of("Kayıtlar (Logs)"@) == "Logs"@,
{
    lemma_text_marks_0();
    lemma_text_marks_1();
    lemma_text_marks_2();
    lemma_text_marks_3();
    lemma_text_marks_4();
    lemma_text_marks_5();
}

/// Glossary entries 132 to 137 hold of the translation.
proof fn lemma_glossary_11()
    ensures
        english_of("Gerçek zamanlı bot etkinlik akışı"@) == "Real-time bot event stream"@,
        english_of("🔍 Log ara..."@) == "🔍 Search logs..."@,
        english_of("Tümü"@) == "All"@,
        english_of("Temizle"@) == "Clear"@,
        english_of("kayıt"@) == "records"@,
        english_of("Log kaydı bulunmadı."@) == "No logs found."@,
{
    lemma_text_marks_0();
    lemma_text_marks_1();
    lemma_text_marks_2();
    lemma_text_marks_3();
    lemma_text_marks_4();
    lemma_text_marks_5();
}

/// Every entry of the glossary holds: the Turkish text of entry `i` is
/// shown in English as the entry's English text, so `t(tr, 1)` gives `en`
/// for each pair `(tr, en)` of the table.
pub proof fn law_glossary_holds(i: int)
    requires
        0 <= i < GLOSSARY_LEN,
    ensures
        english_of(glossary_entry(i).0) == glossary_entry(i).1,
{
    if i < 12 {
        lemma_glossary_0();
    } else if i < 24 {
        lemma_glossary_1();
    } else if i < 36 {
        lemma_glossary_2();
    } else if i < 48 {
        lemma_glossary_3();
    } else if i < 60 {
        lemma_glossary_4();
    } else if i < 72 {
        lemma_glossary_5();
    } else if i < 84 {
        lemma_glossary_6();
    } else if i < 96 {
        lemma_glossary_7();
    } else if i < 108 {
        lemma_glossary_8();
    } else if i < 120 {
        lemma_glossary_9();
    } else if i < 132 {
        lemma_glossary_10();
    } else {
        lemma_glossary_11();
    }
}

/// Translating a translated text changes nothing: no English text of the
/// table is a Turkish text with another translation, so `t(&t(key, i), i)`
/// is `t(key, i)`.
pub proof fn law_translation_settled(key: Seq<char>)
    ensures
        english_of(english_of(key)) == english_of(key),
{
    lemma_english_settled_0();
    lemma_english_settled_1();
    lemma_english_settled_2();
    lemma_english_settled_3();
    lemma_english_settled_4();
    lemma_english_settled_5();
    lemma_english_settled_6();
    lemma_english_settled_7();
    lemma_english_settled_8();
    lemma_english_settled_9();
    lemma_english_settled_10();
    lemma_english_settled_11();
}

} // verus!
