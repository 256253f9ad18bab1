use vstd::prelude::*;

use crate::text::{ascii_lower, lower_ascii};

verus! {

/// A language of the interface.
#[derive(Debug, Clone, Copy, PartialEq, Eq, Structural)]
pub enum Language {
    PtBr,
    En,
    Es,
    Ru,
}

/// Column of `language` in the text table.
pub open spec fn column(language: Language) -> int {
    match language {
        Language::PtBr => 0,
        Language::En => 1,
        Language::Es => 2,
        Language::Ru => 3,
    }
}

/// Whether `c` ends the primary subtag of a locale name (`pt-BR`, `es_ES`).
pub open spec fn is_subtag_separator(c: char) -> bool {
    c == '-' || c == '_'
}

/// The interface language for a primary subtag: Portuguese, Spanish and
/// Russian by their codes in any case, English for everything else.
pub open spec fn language_of_subtag(subtag: Seq<char>) -> Language {
    let lower = subtag.map_values(|c: char| ascii_lower(c));
    if lower == seq!['p', 't'] {
        Language::PtBr
    } else if lower == seq!['e', 's'] {
        Language::Es
    } else if lower == seq!['r', 'u'] {
        Language::Ru
    } else {
        Language::En
    }
}

/// `end` is where the primary subtag of `tag` ends: at the first separator,
/// or at the end of the name.
pub open spec fn subtag_end(tag: Seq<char>, end: int) -> bool {
    &&& 0 <= end <= tag.len()
    &&& forall|j: int| 0 <= j < end ==> !is_subtag_separator(#[trigger] tag[j])
    &&& end < tag.len() ==> is_subtag_separator(tag[end])
}

impl Language {
    pub const ALL: [Language; 4] = [Language::PtBr, Language::En, Language::Es, Language::Ru];

    /// The language's own name for itself.
    pub fn label(self) -> (name: &'static str)
        ensures
            self == Language::PtBr ==> name@ == "Português"@,
            self == Language::En ==> name@ == "English"@,
            self == Language::Es ==> name@ == "Español"@,
            self == Language::Ru ==> name@ == "Русский"@,
    {
        match self {
            Language::PtBr => "Português",
            Language::En => "English",
            Language::Es => "Español",
            Language::Ru => "Русский",
        }
    }

    /// The interface language for a Windows locale name such as `pt-BR`.
    pub fn from_locale(tag: &str) -> (language: Self)
        ensures
            exists|end: int| subtag_end(tag@, end) && language == language_of_subtag(tag@.take(end)),
    {
        let length = tag.unicode_len();
        let mut end: usize = 0;
        while end < length && !separator_at(tag, end)
            invariant
                length == tag@.len(),
                end <= length,
                forall|j: int| 0 <= j < end ==> !is_subtag_separator(#[trigger] tag@[j]),
            decreases length - end,
        {
            end = end + 1;
        }
        let language = if end == 2 {
            let first = lower_ascii(tag.get_char(0));
            let second = lower_ascii(tag.get_char(1));
            if first == 'p' && second == 't' {
                Language::PtBr
            } else if first == 'e' && second == 's' {
                Language::Es
            } else if first == 'r' && second == 'u' {
                Language::Ru
            } else {
                Language::En
            }
        } else {
            Language::En
        };
        proof {
            let subtag = tag@.take(end as int);
            let lower = subtag.map_values(|c: char| ascii_lower(c));
            if end == 2 {
                assert(lower[0] == ascii_lower(tag@[0]));
                assert(lower[1] == ascii_lower(tag@[1]));
                assert(lower.len() == 2);
                if lower[0] == 'p' && lower[1] == 't' {
                    assert(lower =~= seq!['p', 't']);
                }
                if lower[0] == 'e' && lower[1] == 's' {
                    assert(lower =~= seq!['e', 's']);
                }
                if lower[0] == 'r' && lower[1] == 'u' {
                    assert(lower =~= seq!['r', 'u']);
                }
                assert(seq!['p', 't'][0] == 'p' && seq!['p', 't'][1] == 't');
                assert(seq!['e', 's'][0] == 'e' && seq!['e', 's'][1] == 's');
                assert(seq!['r', 'u'][0] == 'r' && seq!['r', 'u'][1] == 'u');
            } else {
                assert(lower.len() != 2);
                assert(lower != seq!['p', 't']);
                assert(lower != seq!['e', 's']);
                assert(lower != seq!['r', 'u']);
            }
            assert(subtag_end(tag@, end as int));
        }
        language
    }

    fn index(self) -> (i: usize)
        ensures
            i == column(self),
    {
        match self {
            Language::PtBr => 0,
            Language::En => 1,
            Language::Es => 2,
            Language::Ru => 3,
        }
    }
}

fn separator_at(tag: &str, i: usize) -> (separator: bool)
    requires
        i < tag@.len(),
    ensures
        separator == is_subtag_separator(tag@[i as int]),
{
    let c = tag.get_char(i);
    c == '-' || c == '_'
}

/// A piece of interface text.
#[derive(Debug, Clone, Copy, PartialEq, Eq, Structural)]
pub enum Text {
    SectionSource,
    SectionFraming,
    SectionPlayback,
    ChooseVideo,
    Preparing,
    NoFile,
    RemoveFromMonitor,
    Converting,
    Zoom,
    Horizontal,
    Vertical,
    Recenter,
    Speed,
    ModeFill,
    ModeFit,
    ModeStretch,
    ModeCenter,
    ModeFree,
    PreviewHint,
    NoVideoChosen,
    Close,
    Apply,
    Saved,
    StartWithWindows,
    CloseToTray,
    PauseFullscreen,
    OptimizeOnImport,
    LanguageLabel,
    PickerTitle,
    SequenceSettings,
    SequenceTitle,
    AddVideo,
    NoThumbnail,
    LibraryEmpty,
    OneImported,
    ManyImported,
    OneInSequence,
    ManyInSequence,
    Save,
    TransitionTitle,
    TransitionNone,
    TransitionFade,
    TransitionLeftRight,
    TransitionRightLeft,
    TransitionTopBottom,
    TransitionBottomTop,
    TransitionRebuild,
    TransitionMorph,
    TimerTitle,
    TimerHint,
    UnitLoops,
    UnitSeconds,
    LoopsOfVideo,
    TimeOnScreen,
    ApplyToAll,
    AllSources,
    NoSources,
    UseSchedule,
    ScheduleHint,
    AddTime,
    Monitor,
    SectionLayers,
    LayerBackground,
    LayersHint,
    PasteIntoComposition,
    SectionResize,
    StretchWidth,
    StretchHeight,
    ResetStretch,
    SectionFilters,
    Brightness,
    Contrast,
    Saturation,
    Temperature,
    ResetFilters,
    FramingHint,
    ResetFraming,
    ConfigSaved,
    ConfigSavedApplied,
    CannotOpenVideo,
    CannotSave,
    CannotChangeStartup,
    PreparingVideo,
    NotOptimized,
    SavedButNoEngine,
    SavedButNoPoster,
    ImportInterrupted,
    TransitionPreviewHint,
    FilterMedia,
    FilterAll,
    PauseBattery,
    PauseEnergySaver,
    Search,
    Favorites,
    Storage,
    Diagnostics,
    RemoveLibrary,
}

/// The translations of `key`, one per language in the order of `column`.
pub open spec fn translations(key: Text) -> [&'static str; 4] {
    match key {
        Text::SectionSource => [
                "Fonte",
                "Source",
                "Fuente",
                "Источник",
            ],
        Text::SectionFraming => [
                "Enquadramento",
                "Framing",
                "Encuadre",
                "Кадрирование",
            ],
        Text::SectionPlayback => [
                "Reprodução",
                "Playback",
                "Reproducción",
                "Воспроизведение",
            ],
        Text::ChooseVideo => [
                "Escolher vídeo…",
                "Choose video…",
                "Elegir vídeo…",
                "Выбрать видео…",
            ],
        Text::Preparing => [
                "Preparando o vídeo…",
                "Preparing video…",
                "Preparando el vídeo…",
                "Подготовка видео…",
            ],
        Text::NoFile => [
                "nenhum arquivo",
                "no file",
                "ningún archivo",
                "нет файла",
            ],
        Text::RemoveFromMonitor => [
                "Remover deste monitor",
                "Remove from this monitor",
                "Quitar de este monitor",
                "Убрать с этого монитора",
            ],
        Text::Converting => [
                "Convertendo para a resolução do monitor",
                "Converting to the monitor resolution",
                "Convirtiendo a la resolución del monitor",
                "Преобразование под разрешение монитора",
            ],
        Text::Zoom => [
                "Zoom",
                "Zoom",
                "Zoom",
                "Масштаб",
            ],
        Text::Horizontal => [
                "Horizontal",
                "Horizontal",
                "Horizontal",
                "По горизонтали",
            ],
        Text::Vertical => [
                "Vertical",
                "Vertical",
                "Vertical",
                "По вертикали",
            ],
        Text::Recenter => [
                "Centralizar",
                "Recenter",
                "Centrar",
                "По центру",
            ],
        Text::Speed => [
                "Velocidade",
                "Speed",
                "Velocidad",
                "Скорость",
            ],
        Text::ModeFill => [
                "Preencher",
                "Fill",
                "Rellenar",
                "Заполнить",
            ],
        Text::ModeFit => [
                "Ajustar",
                "Fit",
                "Ajustar",
                "Вписать",
            ],
        Text::ModeStretch => [
                "Esticar",
                "Stretch",
                "Estirar",
                "Растянуть",
            ],
        Text::ModeCenter => [
                "Centro",
                "Center",
                "Centro",
                "По центру",
            ],
        Text::ModeFree => [
                "Livre",
                "Free",
                "Libre",
                "Свободно",
            ],
        Text::PreviewHint => [
                "arraste para mover  ·  roda para ampliar  ·  duplo clique para editar",
                "drag to move  ·  wheel to zoom  ·  double click to edit",
                "arrastra para mover  ·  rueda para ampliar  ·  doble clic para editar",
                "перетащите  ·  колесо для масштаба  ·  двойной клик для правки",
            ],
        Text::NoVideoChosen => [
                "Nenhum vídeo escolhido para este monitor",
                "No video chosen for this monitor",
                "Ningún vídeo elegido para este monitor",
                "Для этого монитора видео не выбрано",
            ],
        Text::Close => [
                "Fechar",
                "Close",
                "Cerrar",
                "Закрыть",
            ],
        Text::Apply => [
                "Aplicar",
                "Apply",
                "Aplicar",
                "Применить",
            ],
        Text::Saved => [
                "Salvo",
                "Saved",
                "Guardado",
                "Сохранено",
            ],
        Text::StartWithWindows => [
                "Iniciar com o Windows",
                "Start with Windows",
                "Iniciar con Windows",
                "Запускать с Windows",
            ],
        Text::CloseToTray => [
                "Fechar para a bandeja",
                "Close to tray",
                "Cerrar a la bandeja",
                "Сворачивать в трей",
            ],
        Text::PauseFullscreen => [
                "Pausar em tela cheia",
                "Pause on fullscreen",
                "Pausar en pantalla completa",
                "Пауза в полноэкранном режиме",
            ],
        Text::OptimizeOnImport => [
                "Otimizar ao importar",
                "Optimize on import",
                "Optimizar al importar",
                "Оптимизировать при импорте",
            ],
        Text::LanguageLabel => [
                "Idioma",
                "Language",
                "Idioma",
                "Язык",
            ],
        Text::PickerTitle => [
                "Escolher vídeo",
                "Choose video",
                "Elegir vídeo",
                "Выбрать видео",
            ],
        Text::SequenceSettings => [
                "Transição e tempo",
                "Transition and timing",
                "Transición y tiempo",
                "Переход и время",
            ],
        Text::SequenceTitle => [
                "Sequência",
                "Sequence",
                "Secuencia",
                "Последовательность",
            ],
        Text::AddVideo => [
                "Adicionar vídeo",
                "Add video",
                "Añadir vídeo",
                "Добавить видео",
            ],
        Text::NoThumbnail => [
                "sem miniatura",
                "no thumbnail",
                "sin miniatura",
                "нет эскиза",
            ],
        Text::LibraryEmpty => [
                "Nenhum vídeo importado ainda. Use o espaço vazio para adicionar o primeiro.",
                "No videos imported yet. Use the empty slot to add the first one.",
                "Aún no hay vídeos importados. Usa el espacio vacío para añadir el primero.",
                "Видео ещё не импортированы. Используйте пустую ячейку, чтобы добавить первое.",
            ],
        Text::OneImported => [
                "1 vídeo importado",
                "1 video imported",
                "1 vídeo importado",
                "1 видео импортировано",
            ],
        Text::ManyImported => [
                "{} vídeos importados",
                "{} videos imported",
                "{} vídeos importados",
                "видео импортировано: {}",
            ],
        Text::OneInSequence => [
                "1 wallpaper na lista",
                "1 wallpaper in the list",
                "1 fondo en la lista",
                "1 обои в списке",
            ],
        Text::ManyInSequence => [
                "{} wallpapers em sequência",
                "{} wallpapers in sequence",
                "{} fondos en secuencia",
                "обоев в последовательности: {}",
            ],
        Text::Save => [
                "Salvar",
                "Save",
                "Guardar",
                "Сохранить",
            ],
        Text::TransitionTitle => [
                "Transição",
                "Transition",
                "Transición",
                "Переход",
            ],
        Text::TransitionNone => [
                "Sem transição",
                "No transition",
                "Sin transición",
                "Без перехода",
            ],
        Text::TransitionFade => [
                "Fade",
                "Fade",
                "Fundido",
                "Затухание",
            ],
        Text::TransitionLeftRight => [
                "Esquerda › direita",
                "Left › right",
                "Izquierda › derecha",
                "Слева направо",
            ],
        Text::TransitionRightLeft => [
                "Direita › esquerda",
                "Right › left",
                "Derecha › izquierda",
                "Справа налево",
            ],
        Text::TransitionTopBottom => [
                "Cima › baixo",
                "Top › bottom",
                "Arriba › abajo",
                "Сверху вниз",
            ],
        Text::TransitionBottomTop => [
                "Baixo › cima",
                "Bottom › top",
                "Abajo › arriba",
                "Снизу вверх",
            ],
        Text::TransitionRebuild => [
                "Reconstrução",
                "Rebuild",
                "Reconstrucción",
                "Сборка",
            ],
        Text::TransitionMorph => [
                "Transformar",
                "Morph",
                "Transformar",
                "Трансформация",
            ],
        Text::TimerTitle => [
                "Temporizador",
                "Timer",
                "Temporizador",
                "Таймер",
            ],
        Text::TimerHint => [
                "Quanto tempo cada wallpaper fica na tela antes do próximo.",
                "How long each wallpaper stays on screen before the next one.",
                "Cuánto tiempo permanece cada fondo antes del siguiente.",
                "Сколько времени каждые обои остаются на экране.",
            ],
        Text::UnitLoops => [
                "Repetições",
                "Loops",
                "Repeticiones",
                "Повторы",
            ],
        Text::UnitSeconds => [
                "Segundos",
                "Seconds",
                "Segundos",
                "Секунды",
            ],
        Text::LoopsOfVideo => [
                "Repetições do vídeo",
                "Video loops",
                "Repeticiones del vídeo",
                "Повторов видео",
            ],
        Text::TimeOnScreen => [
                "Tempo na tela",
                "Time on screen",
                "Tiempo en pantalla",
                "Время на экране",
            ],
        Text::ApplyToAll => [
                "Definir para todos",
                "Apply to all",
                "Definir para todos",
                "Для всех",
            ],
        Text::AllSources => [
                "Todas as fontes",
                "All sources",
                "Todas las fuentes",
                "Все источники",
            ],
        Text::NoSources => [
                "Nenhuma fonte na sequência ainda.",
                "No sources in the sequence yet.",
                "Todavía no hay fuentes en la secuencia.",
                "В последовательности пока нет источников.",
            ],
        Text::UseSchedule => [
                "Usar horários",
                "Use a schedule",
                "Usar horarios",
                "По расписанию",
            ],
        Text::ScheduleHint => [
                "Cada horário vale até o próximo começar, usando o relógio do sistema.",
                "Each time applies until the next one starts, using the system clock.",
                "Cada horario rige hasta que empiece el siguiente, con el reloj del sistema.",
                "Каждое время действует до следующего, по системным часам.",
            ],
        Text::AddTime => [
                "Adicionar horário",
                "Add a time",
                "Añadir horario",
                "Добавить время",
            ],
        Text::Monitor => [
                "Monitor",
                "Monitor",
                "Monitor",
                "Монитор",
            ],
        Text::SectionLayers => [
                "Camadas",
                "Layers",
                "Capas",
                "Слои",
            ],
        Text::LayerBackground => [
                "Fundo",
                "Background",
                "Fondo",
                "Фон",
            ],
        Text::LayersHint => [
                "Cole itens da biblioteca aqui.",
                "Paste library items here.",
                "Pega elementos de la biblioteca.",
                "Вставьте элементы из библиотеки.",
            ],
        Text::PasteIntoComposition => [
                "Colar na composição",
                "Paste into composition",
                "Pegar en la composición",
                "Вставить в композицию",
            ],
        Text::SectionResize => [
                "Redimensionar",
                "Resize",
                "Redimensionar",
                "Размер",
            ],
        Text::StretchWidth => [
                "Largura",
                "Width",
                "Ancho",
                "Ширина",
            ],
        Text::StretchHeight => [
                "Altura",
                "Height",
                "Alto",
                "Высота",
            ],
        Text::ResetStretch => [
                "Voltar à proporção",
                "Reset proportions",
                "Volver a la proporción",
                "Вернуть пропорции",
            ],
        Text::SectionFilters => [
                "Filtros",
                "Filters",
                "Filtros",
                "Фильтры",
            ],
        Text::Brightness => [
                "Brilho",
                "Brightness",
                "Brillo",
                "Яркость",
            ],
        Text::Contrast => [
                "Contraste",
                "Contrast",
                "Contraste",
                "Контраст",
            ],
        Text::Saturation => [
                "Saturação",
                "Saturation",
                "Saturación",
                "Насыщенность",
            ],
        Text::Temperature => [
                "Temperatura",
                "Temperature",
                "Temperatura",
                "Температура",
            ],
        Text::ResetFilters => [
                "Limpar filtros",
                "Clear filters",
                "Limpiar filtros",
                "Сбросить фильтры",
            ],
        Text::FramingHint => [
                "Botão direito no preview para o enquadramento.",
                "Right-click the preview for framing.",
                "Clic derecho en la vista para el encuadre.",
                "Правый клик по превью — кадрирование.",
            ],
        Text::ResetFraming => [
                "Redefinir",
                "Reset",
                "Restablecer",
                "Сбросить",
            ],
        Text::ConfigSaved => [
                "Configuração salva.",
                "Settings saved.",
                "Configuración guardada.",
                "Настройки сохранены.",
            ],
        Text::ConfigSavedApplied => [
                "Configuração salva. Wallpaper aplicado.",
                "Settings saved. Wallpaper applied.",
                "Configuración guardada. Fondo aplicado.",
                "Настройки сохранены. Обои применены.",
            ],
        Text::CannotOpenVideo => [
                "Não consegui abrir o vídeo",
                "Could not open the video",
                "No pude abrir el vídeo",
                "Не удалось открыть видео",
            ],
        Text::CannotSave => [
                "Não consegui salvar",
                "Could not save",
                "No pude guardar",
                "Не удалось сохранить",
            ],
        Text::CannotChangeStartup => [
                "Não consegui alterar a inicialização",
                "Could not change startup",
                "No pude cambiar el inicio",
                "Не удалось изменить автозапуск",
            ],
        Text::PreparingVideo => [
                "Preparando o vídeo…",
                "Preparing the video…",
                "Preparando el vídeo…",
                "Подготовка видео…",
            ],
        Text::NotOptimized => [
                "Sem otimizar",
                "Not optimized",
                "Sin optimizar",
                "Без оптимизации",
            ],
        Text::SavedButNoEngine => [
                "Salvo, mas não consegui iniciar o motor",
                "Saved, but could not start the engine",
                "Guardado, pero no pude iniciar el motor",
                "Сохранено, но не удалось запустить движок",
            ],
        Text::SavedButNoPoster => [
                "Salvo, mas sem frame estático",
                "Saved, but without a static frame",
                "Guardado, pero sin fotograma estático",
                "Сохранено, но без статичного кадра",
            ],
        Text::ImportInterrupted => [
                "A preparação do vídeo foi interrompida.",
                "Video preparation was interrupted.",
                "La preparación del vídeo se interrumpió.",
                "Подготовка видео была прервана.",
            ],
        Text::TransitionPreviewHint => [
                "Escolha uma transição para vê-la aqui",
                "Pick a transition to see it here",
                "Elige una transición para verla aquí",
                "Выберите переход, чтобы увидеть его",
            ],
        Text::FilterMedia => [
                "Vídeos e imagens",
                "Videos and images",
                "Vídeos e imágenes",
                "Видео и изображения",
            ],
        Text::FilterAll => [
                "Todos os arquivos",
                "All files",
                "Todos los archivos",
                "Все файлы",
            ],
        Text::PauseBattery => [
                "Pausar na bateria",
                "Pause on battery",
                "Pausar con batería",
                "Пауза от батареи",
            ],
        Text::PauseEnergySaver => [
                "Pausar ao economizar energia",
                "Pause in energy saver",
                "Pausar en ahorro de energía",
                "Пауза при энергосбережении",
            ],
        Text::Search => [
                "Buscar wallpapers…",
                "Search wallpapers…",
                "Buscar fondos…",
                "Поиск обоев…",
            ],
        Text::Favorites => [
                "Favoritos",
                "Favorites",
                "Favoritos",
                "Избранное",
            ],
        Text::Storage => [
                "Espaço e limpeza…",
                "Storage and cleanup…",
                "Espacio y limpieza…",
                "Место и очистка…",
            ],
        Text::Diagnostics => [
                "Diagnóstico…",
                "Diagnostics…",
                "Diagnóstico…",
                "Диагностика…",
            ],
        Text::RemoveLibrary => [
                "Remover selecionados da biblioteca",
                "Remove selected from library",
                "Quitar seleccionados de la biblioteca",
                "Удалить выбранные из библиотеки",
            ],
    }
}

impl Text {
    fn row(self) -> (row: [&'static str; 4])
        ensures
            row == translations(self),
    {
        match self {
            Text::SectionSource => [
                    "Fonte",
                    "Source",
                    "Fuente",
                    "Источник",
                ],
            Text::SectionFraming => [
                    "Enquadramento",
                    "Framing",
                    "Encuadre",
                    "Кадрирование",
                ],
            Text::SectionPlayback => [
                    "Reprodução",
                    "Playback",
                    "Reproducción",
                    "Воспроизведение",
                ],
            Text::ChooseVideo => [
                    "Escolher vídeo…",
                    "Choose video…",
                    "Elegir vídeo…",
                    "Выбрать видео…",
                ],
            Text::Preparing => [
                    "Preparando o vídeo…",
                    "Preparing video…",
                    "Preparando el vídeo…",
                    "Подготовка видео…",
                ],
            Text::NoFile => [
                    "nenhum arquivo",
                    "no file",
                    "ningún archivo",
                    "нет файла",
                ],
            Text::RemoveFromMonitor => [
                    "Remover deste monitor",
                    "Remove from this monitor",
                    "Quitar de este monitor",
                    "Убрать с этого монитора",
                ],
            Text::Converting => [
                    "Convertendo para a resolução do monitor",
                    "Converting to the monitor resolution",
                    "Convirtiendo a la resolución del monitor",
                    "Преобразование под разрешение монитора",
                ],
            Text::Zoom => [
                    "Zoom",
                    "Zoom",
                    "Zoom",
                    "Масштаб",
                ],
            Text::Horizontal => [
                    "Horizontal",
                    "Horizontal",
                    "Horizontal",
                    "По горизонтали",
                ],
            Text::Vertical => [
                    "Vertical",
                    "Vertical",
                    "Vertical",
                    "По вертикали",
                ],
            Text::Recenter => [
                    "Centralizar",
                    "Recenter",
                    "Centrar",
                    "По центру",
                ],
            Text::Speed => [
                    "Velocidade",
                    "Speed",
                    "Velocidad",
                    "Скорость",
                ],
            Text::ModeFill => [
                    "Preencher",
                    "Fill",
                    "Rellenar",
                    "Заполнить",
                ],
            Text::ModeFit => [
                    "Ajustar",
                    "Fit",
                    "Ajustar",
                    "Вписать",
                ],
            Text::ModeStretch => [
                    "Esticar",
                    "Stretch",
                    "Estirar",
                    "Растянуть",
                ],
            Text::ModeCenter => [
                    "Centro",
                    "Center",
                    "Centro",
                    "По центру",
                ],
            Text::ModeFree => [
                    "Livre",
                    "Free",
                    "Libre",
                    "Свободно",
                ],
            Text::PreviewHint => [
                    "arraste para mover  ·  roda para ampliar  ·  duplo clique para editar",
                    "drag to move  ·  wheel to zoom  ·  double click to edit",
                    "arrastra para mover  ·  rueda para ampliar  ·  doble clic para editar",
                    "перетащите  ·  колесо для масштаба  ·  двойной клик для правки",
                ],
            Text::NoVideoChosen => [
                    "Nenhum vídeo escolhido para este monitor",
                    "No video chosen for this monitor",
                    "Ningún vídeo elegido para este monitor",
                    "Для этого монитора видео не выбрано",
                ],
            Text::Close => [
                    "Fechar",
                    "Close",
                    "Cerrar",
                    "Закрыть",
                ],
            Text::Apply => [
                    "Aplicar",
                    "Apply",
                    "Aplicar",
                    "Применить",
                ],
            Text::Saved => [
                    "Salvo",
                    "Saved",
                    "Guardado",
                    "Сохранено",
                ],
            Text::StartWithWindows => [
                    "Iniciar com o Windows",
                    "Start with Windows",
                    "Iniciar con Windows",
                    "Запускать с Windows",
                ],
            Text::CloseToTray => [
                    "Fechar para a bandeja",
                    "Close to tray",
                    "Cerrar a la bandeja",
                    "Сворачивать в трей",
                ],
            Text::PauseFullscreen => [
                    "Pausar em tela cheia",
                    "Pause on fullscreen",
                    "Pausar en pantalla completa",
                    "Пауза в полноэкранном режиме",
                ],
            Text::OptimizeOnImport => [
                    "Otimizar ao importar",
                    "Optimize on import",
                    "Optimizar al importar",
                    "Оптимизировать при импорте",
                ],
            Text::LanguageLabel => [
                    "Idioma",
                    "Language",
                    "Idioma",
                    "Язык",
                ],
            Text::PickerTitle => [
                    "Escolher vídeo",
                    "Choose video",
                    "Elegir vídeo",
                    "Выбрать видео",
                ],
            Text::SequenceSettings => [
                    "Transição e tempo",
                    "Transition and timing",
                    "Transición y tiempo",
                    "Переход и время",
                ],
            Text::SequenceTitle => [
                    "Sequência",
                    "Sequence",
                    "Secuencia",
                    "Последовательность",
                ],
            Text::AddVideo => [
                    "Adicionar vídeo",
                    "Add video",
                    "Añadir vídeo",
                    "Добавить видео",
                ],
            Text::NoThumbnail => [
                    "sem miniatura",
                    "no thumbnail",
                    "sin miniatura",
                    "нет эскиза",
                ],
            Text::LibraryEmpty => [
                    "Nenhum vídeo importado ainda. Use o espaço vazio para adicionar o primeiro.",
                    "No videos imported yet. Use the empty slot to add the first one.",
                    "Aún no hay vídeos importados. Usa el espacio vacío para añadir el primero.",
                    "Видео ещё не импортированы. Используйте пустую ячейку, чтобы добавить первое.",
                ],
            Text::OneImported => [
                    "1 vídeo importado",
                    "1 video imported",
                    "1 vídeo importado",
                    "1 видео импортировано",
                ],
            Text::ManyImported => [
                    "{} vídeos importados",
                    "{} videos imported",
                    "{} vídeos importados",
                    "видео импортировано: {}",
                ],
            Text::OneInSequence => [
                    "1 wallpaper na lista",
                    "1 wallpaper in the list",
                    "1 fondo en la lista",
                    "1 обои в списке",
                ],
            Text::ManyInSequence => [
                    "{} wallpapers em sequência",
                    "{} wallpapers in sequence",
                    "{} fondos en secuencia",
                    "обоев в последовательности: {}",
                ],
            Text::Save => [
                    "Salvar",
                    "Save",
                    "Guardar",
                    "Сохранить",
                ],
            Text::TransitionTitle => [
                    "Transição",
                    "Transition",
                    "Transición",
                    "Переход",
                ],
            Text::TransitionNone => [
                    "Sem transição",
                    "No transition",
                    "Sin transición",
                    "Без перехода",
                ],
            Text::TransitionFade => [
                    "Fade",
                    "Fade",
                    "Fundido",
                    "Затухание",
                ],
            Text::TransitionLeftRight => [
                    "Esquerda › direita",
                    "Left › right",
                    "Izquierda › derecha",
                    "Слева направо",
                ],
            Text::TransitionRightLeft => [
                    "Direita › esquerda",
                    "Right › left",
                    "Derecha › izquierda",
                    "Справа налево",
                ],
            Text::TransitionTopBottom => [
                    "Cima › baixo",
                    "Top › bottom",
                    "Arriba › abajo",
                    "Сверху вниз",
                ],
            Text::TransitionBottomTop => [
                    "Baixo › cima",
                    "Bottom › top",
                    "Abajo › arriba",
                    "Снизу вверх",
                ],
            Text::TransitionRebuild => [
                    "Reconstrução",
                    "Rebuild",
                    "Reconstrucción",
                    "Сборка",
                ],
            Text::TransitionMorph => [
                    "Transformar",
                    "Morph",
                    "Transformar",
                    "Трансформация",
                ],
            Text::TimerTitle => [
                    "Temporizador",
                    "Timer",
                    "Temporizador",
                    "Таймер",
                ],
            Text::TimerHint => [
                    "Quanto tempo cada wallpaper fica na tela antes do próximo.",
                    "How long each wallpaper stays on screen before the next one.",
                    "Cuánto tiempo permanece cada fondo antes del siguiente.",
                    "Сколько времени каждые обои остаются на экране.",
                ],
            Text::UnitLoops => [
                    "Repetições",
                    "Loops",
                    "Repeticiones",
                    "Повторы",
                ],
            Text::UnitSeconds => [
                    "Segundos",
                    "Seconds",
                    "Segundos",
                    "Секунды",
                ],
            Text::LoopsOfVideo => [
                    "Repetições do vídeo",
                    "Video loops",
                    "Repeticiones del vídeo",
                    "Повторов видео",
                ],
            Text::TimeOnScreen => [
                    "Tempo na tela",
                    "Time on screen",
                    "Tiempo en pantalla",
                    "Время на экране",
                ],
            Text::ApplyToAll => [
                    "Definir para todos",
                    "Apply to all",
                    "Definir para todos",
                    "Для всех",
                ],
            Text::AllSources => [
                    "Todas as fontes",
                    "All sources",
                    "Todas las fuentes",
                    "Все источники",
                ],
            Text::NoSources => [
                    "Nenhuma fonte na sequência ainda.",
                    "No sources in the sequence yet.",
                    "Todavía no hay fuentes en la secuencia.",
                    "В последовательности пока нет источников.",
                ],
            Text::UseSchedule => [
                    "Usar horários",
                    "Use a schedule",
                    "Usar horarios",
                    "По расписанию",
                ],
            Text::ScheduleHint => [
                    "Cada horário vale até o próximo começar, usando o relógio do sistema.",
                    "Each time applies until the next one starts, using the system clock.",
                    "Cada horario rige hasta que empiece el siguiente, con el reloj del sistema.",
                    "Каждое время действует до следующего, по системным часам.",
                ],
            Text::AddTime => [
                    "Adicionar horário",
                    "Add a time",
                    "Añadir horario",
                    "Добавить время",
                ],
            Text::Monitor => [
                    "Monitor",
                    "Monitor",
                    "Monitor",
                    "Монитор",
                ],
            Text::SectionLayers => [
                    "Camadas",
                    "Layers",
                    "Capas",
                    "Слои",
                ],
            Text::LayerBackground => [
                    "Fundo",
                    "Background",
                    "Fondo",
                    "Фон",
                ],
            Text::LayersHint => [
                    "Cole itens da biblioteca aqui.",
                    "Paste library items here.",
                    "Pega elementos de la biblioteca.",
                    "Вставьте элементы из библиотеки.",
                ],
            Text::PasteIntoComposition => [
                    "Colar na composição",
                    "Paste into composition",
                    "Pegar en la composición",
                    "Вставить в композицию",
                ],
            Text::SectionResize => [
                    "Redimensionar",
                    "Resize",
                    "Redimensionar",
                    "Размер",
                ],
            Text::StretchWidth => [
                    "Largura",
                    "Width",
                    "Ancho",
                    "Ширина",
                ],
            Text::StretchHeight => [
                    "Altura",
                    "Height",
                    "Alto",
                    "Высота",
                ],
            Text::ResetStretch => [
                    "Voltar à proporção",
                    "Reset proportions",
                    "Volver a la proporción",
                    "Вернуть пропорции",
                ],
            Text::SectionFilters => [
                    "Filtros",
                    "Filters",
                    "Filtros",
                    "Фильтры",
                ],
            Text::Brightness => [
                    "Brilho",
                    "Brightness",
                    "Brillo",
                    "Яркость",
                ],
            Text::Contrast => [
                    "Contraste",
                    "Contrast",
                    "Contraste",
                    "Контраст",
                ],
            Text::Saturation => [
                    "Saturação",
                    "Saturation",
                    "Saturación",
                    "Насыщенность",
                ],
            Text::Temperature => [
                    "Temperatura",
                    "Temperature",
                    "Temperatura",
                    "Температура",
                ],
            Text::ResetFilters => [
                    "Limpar filtros",
                    "Clear filters",
                    "Limpiar filtros",
                    "Сбросить фильтры",
                ],
            Text::FramingHint => [
                    "Botão direito no preview para o enquadramento.",
                    "Right-click the preview for framing.",
                    "Clic derecho en la vista para el encuadre.",
                    "Правый клик по превью — кадрирование.",
                ],
            Text::ResetFraming => [
                    "Redefinir",
                    "Reset",
                    "Restablecer",
                    "Сбросить",
                ],
            Text::ConfigSaved => [
                    "Configuração salva.",
                    "Settings saved.",
                    "Configuración guardada.",
                    "Настройки сохранены.",
                ],
            Text::ConfigSavedApplied => [
                    "Configuração salva. Wallpaper aplicado.",
                    "Settings saved. Wallpaper applied.",
                    "Configuración guardada. Fondo aplicado.",
                    "Настройки сохранены. Обои применены.",
                ],
            Text::CannotOpenVideo => [
                    "Não consegui abrir o vídeo",
                    "Could not open the video",
                    "No pude abrir el vídeo",
                    "Не удалось открыть видео",
                ],
            Text::CannotSave => [
                    "Não consegui salvar",
                    "Could not save",
                    "No pude guardar",
                    "Не удалось сохранить",
                ],
            Text::CannotChangeStartup => [
                    "Não consegui alterar a inicialização",
                    "Could not change startup",
                    "No pude cambiar el inicio",
                    "Не удалось изменить автозапуск",
                ],
            Text::PreparingVideo => [
                    "Preparando o vídeo…",
                    "Preparing the video…",
                    "Preparando el vídeo…",
                    "Подготовка видео…",
                ],
            Text::NotOptimized => [
                    "Sem otimizar",
                    "Not optimized",
                    "Sin optimizar",
                    "Без оптимизации",
                ],
            Text::SavedButNoEngine => [
                    "Salvo, mas não consegui iniciar o motor",
                    "Saved, but could not start the engine",
                    "Guardado, pero no pude iniciar el motor",
                    "Сохранено, но не удалось запустить движок",
                ],
            Text::SavedButNoPoster => [
                    "Salvo, mas sem frame estático",
                    "Saved, but without a static frame",
                    "Guardado, pero sin fotograma estático",
                    "Сохранено, но без статичного кадра",
                ],
            Text::ImportInterrupted => [
                    "A preparação do vídeo foi interrompida.",
                    "Video preparation was interrupted.",
                    "La preparación del vídeo se interrumpió.",
                    "Подготовка видео была прервана.",
                ],
            Text::TransitionPreviewHint => [
                    "Escolha uma transição para vê-la aqui",
                    "Pick a transition to see it here",
                    "Elige una transición para verla aquí",
                    "Выберите переход, чтобы увидеть его",
                ],
            Text::FilterMedia => [
                    "Vídeos e imagens",
                    "Videos and images",
                    "Vídeos e imágenes",
                    "Видео и изображения",
                ],
            Text::FilterAll => [
                    "Todos os arquivos",
                    "All files",
                    "Todos los archivos",
                    "Все файлы",
                ],
            Text::PauseBattery => [
                    "Pausar na bateria",
                    "Pause on battery",
                    "Pausar con batería",
                    "Пауза от батареи",
                ],
            Text::PauseEnergySaver => [
                    "Pausar ao economizar energia",
                    "Pause in energy saver",
                    "Pausar en ahorro de energía",
                    "Пауза при энергосбережении",
                ],
            Text::Search => [
                    "Buscar wallpapers…",
                    "Search wallpapers…",
                    "Buscar fondos…",
                    "Поиск обоев…",
                ],
            Text::Favorites => [
                    "Favoritos",
                    "Favorites",
                    "Favoritos",
                    "Избранное",
                ],
            Text::Storage => [
                    "Espaço e limpeza…",
                    "Storage and cleanup…",
                    "Espacio y limpieza…",
                    "Место и очистка…",
                ],
            Text::Diagnostics => [
                    "Diagnóstico…",
                    "Diagnostics…",
                    "Diagnóstico…",
                    "Диагностика…",
                ],
            Text::RemoveLibrary => [
                    "Remover selecionados da biblioteca",
                    "Remove selected from library",
                    "Quitar seleccionados de la biblioteca",
                    "Удалить выбранные из библиотеки",
                ],
        }
    }
}

/// The text of `key` in `language`.
pub fn t(language: Language, key: Text) -> (text: &'static str)
    ensures
        text == translations(key)@[column(language)],
{
    key.row()[language.index()]
}

/// Every interface text, as it reads in Portuguese: each key gives its own wording.
pub proof fn portuguese_wording()
    ensures
        translations(Text::PauseBattery)@[column(Language::PtBr)]@ == "Pausar na bateria"@,
        translations(Text::PauseEnergySaver)@[column(Language::PtBr)]@ == "Pausar ao economizar energia"@,
        translations(Text::Search)@[column(Language::PtBr)]@ == "Buscar wallpapers…"@,
        translations(Text::Favorites)@[column(Language::PtBr)]@ == "Favoritos"@,
        translations(Text::Storage)@[column(Language::PtBr)]@ == "Espaço e limpeza…"@,
        translations(Text::Diagnostics)@[column(Language::PtBr)]@ == "Diagnóstico…"@,
        translations(Text::RemoveLibrary)@[column(Language::PtBr)]@ == "Remover selecionados da biblioteca"@,
        translations(Text::SectionSource)@[column(Language::PtBr)]@ == "Fonte"@,
        translations(Text::SectionFraming)@[column(Language::PtBr)]@ == "Enquadramento"@,
        translations(Text::SectionPlayback)@[column(Language::PtBr)]@ == "Reprodução"@,
        translations(Text::ChooseVideo)@[column(Language::PtBr)]@ == "Escolher vídeo…"@,
        translations(Text::Preparing)@[column(Language::PtBr)]@ == "Preparando o vídeo…"@,
        translations(Text::NoFile)@[column(Language::PtBr)]@ == "nenhum arquivo"@,
        translations(Text::RemoveFromMonitor)@[column(Language::PtBr)]@ == "Remover deste monitor"@,
        translations(Text::Converting)@[column(Language::PtBr)]@ == "Convertendo para a resolução do monitor"@,
        translations(Text::Zoom)@[column(Language::PtBr)]@ == "Zoom"@,
        translations(Text::Horizontal)@[column(Language::PtBr)]@ == "Horizontal"@,
        translations(Text::Vertical)@[column(Language::PtBr)]@ == "Vertical"@,
        translations(Text::Recenter)@[column(Language::PtBr)]@ == "Centralizar"@,
        translations(Text::Speed)@[column(Language::PtBr)]@ == "Velocidade"@,
        translations(Text::ModeFill)@[column(Language::PtBr)]@ == "Preencher"@,
        translations(Text::ModeFit)@[column(Language::PtBr)]@ == "Ajustar"@,
        translations(Text::ModeStretch)@[column(Language::PtBr)]@ == "Esticar"@,
        translations(Text::ModeCenter)@[column(Language::PtBr)]@ == "Centro"@,
        translations(Text::ModeFree)@[column(Language::PtBr)]@ == "Livre"@,
        translations(Text::PreviewHint)@[column(Language::PtBr)]@ == "arraste para mover  ·  roda para ampliar  ·  duplo clique para editar"@,
        translations(Text::NoVideoChosen)@[column(Language::PtBr)]@ == "Nenhum vídeo escolhido para este monitor"@,
        translations(Text::Close)@[column(Language::PtBr)]@ == "Fechar"@,
        translations(Text::Apply)@[column(Language::PtBr)]@ == "Aplicar"@,
        translations(Text::Saved)@[column(Language::PtBr)]@ == "Salvo"@,
        translations(Text::StartWithWindows)@[column(Language::PtBr)]@ == "Iniciar com o Windows"@,
        translations(Text::CloseToTray)@[column(Language::PtBr)]@ == "Fechar para a bandeja"@,
        translations(Text::PauseFullscreen)@[column(Language::PtBr)]@ == "Pausar em tela cheia"@,
        translations(Text::OptimizeOnImport)@[column(Language::PtBr)]@ == "Otimizar ao importar"@,
        translations(Text::LanguageLabel)@[column(Language::PtBr)]@ == "Idioma"@,
        translations(Text::PickerTitle)@[column(Language::PtBr)]@ == "Escolher vídeo"@,
        translations(Text::SequenceSettings)@[column(Language::PtBr)]@ == "Transição e tempo"@,
        translations(Text::SequenceTitle)@[column(Language::PtBr)]@ == "Sequência"@,
        translations(Text::AddVideo)@[column(Language::PtBr)]@ == "Adicionar vídeo"@,
        translations(Text::NoThumbnail)@[column(Language::PtBr)]@ == "sem miniatura"@,
        translations(Text::LibraryEmpty)@[column(Language::PtBr)]@ == "Nenhum vídeo importado ainda. Use o espaço vazio para adicionar o primeiro."@,
        translations(Text::OneImported)@[column(Language::PtBr)]@ == "1 vídeo importado"@,
        translations(Text::ManyImported)@[column(Language::PtBr)]@ == "{} vídeos importados"@,
        translations(Text::OneInSequence)@[column(Language::PtBr)]@ == "1 wallpaper na lista"@,
        translations(Text::ManyInSequence)@[column(Language::PtBr)]@ == "{} wallpapers em sequência"@,
        translations(Text::Save)@[column(Language::PtBr)]@ == "Salvar"@,
        translations(Text::TransitionTitle)@[column(Language::PtBr)]@ == "Transição"@,
        translations(Text::TransitionNone)@[column(Language::PtBr)]@ == "Sem transição"@,
        translations(Text::TransitionFade)@[column(Language::PtBr)]@ == "Fade"@,
        translations(Text::TransitionLeftRight)@[column(Language::PtBr)]@ == "Esquerda › direita"@,
        translations(Text::TransitionRightLeft)@[column(Language::PtBr)]@ == "Direita › esquerda"@,
        translations(Text::TransitionTopBottom)@[column(Language::PtBr)]@ == "Cima › baixo"@,
        translations(Text::TransitionBottomTop)@[column(Language::PtBr)]@ == "Baixo › cima"@,
        translations(Text::TransitionRebuild)@[column(Language::PtBr)]@ == "Reconstrução"@,
        translations(Text::TransitionMorph)@[column(Language::PtBr)]@ == "Transformar"@,
        translations(Text::TimerTitle)@[column(Language::PtBr)]@ == "Temporizador"@,
        translations(Text::TimerHint)@[column(Language::PtBr)]@ == "Quanto tempo cada wallpaper fica na tela antes do próximo."@,
        translations(Text::UnitLoops)@[column(Language::PtBr)]@ == "Repetições"@,
        translations(Text::UnitSeconds)@[column(Language::PtBr)]@ == "Segundos"@,
        translations(Text::LoopsOfVideo)@[column(Language::PtBr)]@ == "Repetições do vídeo"@,
        translations(Text::TimeOnScreen)@[column(Language::PtBr)]@ == "Tempo na tela"@,
        translations(Text::ApplyToAll)@[column(Language::PtBr)]@ == "Definir para todos"@,
        translations(Text::AllSources)@[column(Language::PtBr)]@ == "Todas as fontes"@,
        translations(Text::NoSources)@[column(Language::PtBr)]@ == "Nenhuma fonte na sequência ainda."@,
        translations(Text::UseSchedule)@[column(Language::PtBr)]@ == "Usar horários"@,
        translations(Text::ScheduleHint)@[column(Language::PtBr)]@ == "Cada horário vale até o próximo começar, usando o relógio do sistema."@,
        translations(Text::AddTime)@[column(Language::PtBr)]@ == "Adicionar horário"@,
        translations(Text::Monitor)@[column(Language::PtBr)]@ == "Monitor"@,
        translations(Text::SectionLayers)@[column(Language::PtBr)]@ == "Camadas"@,
        translations(Text::LayerBackground)@[column(Language::PtBr)]@ == "Fundo"@,
        translations(Text::LayersHint)@[column(Language::PtBr)]@ == "Cole itens da biblioteca aqui."@,
        translations(Text::PasteIntoComposition)@[column(Language::PtBr)]@ == "Colar na composição"@,
        translations(Text::SectionResize)@[column(Language::PtBr)]@ == "Redimensionar"@,
        translations(Text::StretchWidth)@[column(Language::PtBr)]@ == "Largura"@,
        translations(Text::StretchHeight)@[column(Language::PtBr)]@ == "Altura"@,
        translations(Text::ResetStretch)@[column(Language::PtBr)]@ == "Voltar à proporção"@,
        translations(Text::SectionFilters)@[column(Language::PtBr)]@ == "Filtros"@,
        translations(Text::Brightness)@[column(Language::PtBr)]@ == "Brilho"@,
        translations(Text::Contrast)@[column(Language::PtBr)]@ == "Contraste"@,
        translations(Text::Saturation)@[column(Language::PtBr)]@ == "Saturação"@,
        translations(Text::Temperature)@[column(Language::PtBr)]@ == "Temperatura"@,
        translations(Text::ResetFilters)@[column(Language::PtBr)]@ == "Limpar filtros"@,
        translations(Text::FramingHint)@[column(Language::PtBr)]@ == "Botão direito no preview para o enquadramento."@,
        translations(Text::ResetFraming)@[column(Language::PtBr)]@ == "Redefinir"@,
        translations(Text::ConfigSaved)@[column(Language::PtBr)]@ == "Configuração salva."@,
        translations(Text::ConfigSavedApplied)@[column(Language::PtBr)]@ == "Configuração salva. Wallpaper aplicado."@,
        translations(Text::CannotOpenVideo)@[column(Language::PtBr)]@ == "Não consegui abrir o vídeo"@,
        translations(Text::CannotSave)@[column(Language::PtBr)]@ == "Não consegui salvar"@,
        translations(Text::CannotChangeStartup)@[column(Language::PtBr)]@ == "Não consegui alterar a inicialização"@,
        translations(Text::PreparingVideo)@[column(Language::PtBr)]@ == "Preparando o vídeo…"@,
        translations(Text::NotOptimized)@[column(Language::PtBr)]@ == "Sem otimizar"@,
        translations(Text::SavedButNoEngine)@[column(Language::PtBr)]@ == "Salvo, mas não consegui iniciar o motor"@,
        translations(Text::TransitionPreviewHint)@[column(Language::PtBr)]@ == "Escolha uma transição para vê-la aqui"@,
        translations(Text::ImportInterrupted)@[column(Language::PtBr)]@ == "A preparação do vídeo foi interrompida."@,
        translations(Text::FilterMedia)@[column(Language::PtBr)]@ == "Vídeos e imagens"@,
        translations(Text::FilterAll)@[column(Language::PtBr)]@ == "Todos os arquivos"@,
        translations(Text::SavedButNoPoster)@[column(Language::PtBr)]@ == "Salvo, mas sem frame estático"@,
{
}

/// Every interface text, as it reads in English: each key gives its own wording.
pub proof fn english_wording()
    ensures
        translations(Text::PauseBattery)@[column(Language::En)]@ == "Pause on battery"@,
        translations(Text::PauseEnergySaver)@[column(Language::En)]@ == "Pause in energy saver"@,
        translations(Text::Search)@[column(Language::En)]@ == "Search wallpapers…"@,
        translations(Text::Favorites)@[column(Language::En)]@ == "Favorites"@,
        translations(Text::Storage)@[column(Language::En)]@ == "Storage and cleanup…"@,
        translations(Text::Diagnostics)@[column(Language::En)]@ == "Diagnostics…"@,
        translations(Text::RemoveLibrary)@[column(Language::En)]@ == "Remove selected from library"@,
        translations(Text::SectionSource)@[column(Language::En)]@ == "Source"@,
        translations(Text::SectionFraming)@[column(Language::En)]@ == "Framing"@,
        translations(Text::SectionPlayback)@[column(Language::En)]@ == "Playback"@,
        translations(Text::ChooseVideo)@[column(Language::En)]@ == "Choose video…"@,
        translations(Text::Preparing)@[column(Language::En)]@ == "Preparing video…"@,
        translations(Text::NoFile)@[column(Language::En)]@ == "no file"@,
        translations(Text::RemoveFromMonitor)@[column(Language::En)]@ == "Remove from this monitor"@,
        translations(Text::Converting)@[column(Language::En)]@ == "Converting to the monitor resolution"@,
        translations(Text::Zoom)@[column(Language::En)]@ == "Zoom"@,
        translations(Text::Horizontal)@[column(Language::En)]@ == "Horizontal"@,
        translations(Text::Vertical)@[column(Language::En)]@ == "Vertical"@,
        translations(Text::Recenter)@[column(Language::En)]@ == "Recenter"@,
        translations(Text::Speed)@[column(Language::En)]@ == "Speed"@,
        translations(Text::ModeFill)@[column(Language::En)]@ == "Fill"@,
        translations(Text::ModeFit)@[column(Language::En)]@ == "Fit"@,
        translations(Text::ModeStretch)@[column(Language::En)]@ == "Stretch"@,
        translations(Text::ModeCenter)@[column(Language::En)]@ == "Center"@,
        translations(Text::ModeFree)@[column(Language::En)]@ == "Free"@,
        translations(Text::PreviewHint)@[column(Language::En)]@ == "drag to move  ·  wheel to zoom  ·  double click to edit"@,
        translations(Text::NoVideoChosen)@[column(Language::En)]@ == "No video chosen for this monitor"@,
        translations(Text::Close)@[column(Language::En)]@ == "Close"@,
        translations(Text::Apply)@[column(Language::En)]@ == "Apply"@,
        translations(Text::Saved)@[column(Language::En)]@ == "Saved"@,
        translations(Text::StartWithWindows)@[column(Language::En)]@ == "Start with Windows"@,
        translations(Text::CloseToTray)@[column(Language::En)]@ == "Close to tray"@,
        translations(Text::PauseFullscreen)@[column(Language::En)]@ == "Pause on fullscreen"@,
        translations(Text::OptimizeOnImport)@[column(Language::En)]@ == "Optimize on import"@,
        translations(Text::LanguageLabel)@[column(Language::En)]@ == "Language"@,
        translations(Text::PickerTitle)@[column(Language::En)]@ == "Choose video"@,
        translations(Text::SequenceSettings)@[column(Language::En)]@ == "Transition and timing"@,
        translations(Text::SequenceTitle)@[column(Language::En)]@ == "Sequence"@,
        translations(Text::AddVideo)@[column(Language::En)]@ == "Add video"@,
        translations(Text::NoThumbnail)@[column(Language::En)]@ == "no thumbnail"@,
        translations(Text::LibraryEmpty)@[column(Language::En)]@ == "No videos imported yet. Use the empty slot to add the first one."@,
        translations(Text::OneImported)@[column(Language::En)]@ == "1 video imported"@,
        translations(Text::ManyImported)@[column(Language::En)]@ == "{} videos imported"@,
        translations(Text::OneInSequence)@[column(Language::En)]@ == "1 wallpaper in the list"@,
        translations(Text::ManyInSequence)@[column(Language::En)]@ == "{} wallpapers in sequence"@,
        translations(Text::Save)@[column(Language::En)]@ == "Save"@,
        translations(Text::TransitionTitle)@[column(Language::En)]@ == "Transition"@,
        translations(Text::TransitionNone)@[column(Language::En)]@ == "No transition"@,
        translations(Text::TransitionFade)@[column(Language::En)]@ == "Fade"@,
        translations(Text::TransitionLeftRight)@[column(Language::En)]@ == "Left › right"@,
        translations(Text::TransitionRightLeft)@[column(Language::En)]@ == "Right › left"@,
        translations(Text::TransitionTopBottom)@[column(Language::En)]@ == "Top › bottom"@,
        translations(Text::TransitionBottomTop)@[column(Language::En)]@ == "Bottom › top"@,
        translations(Text::TransitionRebuild)@[column(Language::En)]@ == "Rebuild"@,
        translations(Text::TransitionMorph)@[column(Language::En)]@ == "Morph"@,
        translations(Text::TimerTitle)@[column(Language::En)]@ == "Timer"@,
        translations(Text::TimerHint)@[column(Language::En)]@ == "How long each wallpaper stays on screen before the next one."@,
        translations(Text::UnitLoops)@[column(Language::En)]@ == "Loops"@,
        translations(Text::UnitSeconds)@[column(Language::En)]@ == "Seconds"@,
        translations(Text::LoopsOfVideo)@[column(Language::En)]@ == "Video loops"@,
        translations(Text::TimeOnScreen)@[column(Language::En)]@ == "Time on screen"@,
        translations(Text::ApplyToAll)@[column(Language::En)]@ == "Apply to all"@,
        translations(Text::AllSources)@[column(Language::En)]@ == "All sources"@,
        translations(Text::NoSources)@[column(Language::En)]@ == "No sources in the sequence yet."@,
        translations(Text::UseSchedule)@[column(Language::En)]@ == "Use a schedule"@,
        translations(Text::ScheduleHint)@[column(Language::En)]@ == "Each time applies until the next one starts, using the system clock."@,
        translations(Text::AddTime)@[column(Language::En)]@ == "Add a time"@,
        translations(Text::Monitor)@[column(Language::En)]@ == "Monitor"@,
        translations(Text::SectionLayers)@[column(Language::En)]@ == "Layers"@,
        translations(Text::LayerBackground)@[column(Language::En)]@ == "Background"@,
        translations(Text::LayersHint)@[column(Language::En)]@ == "Paste library items here."@,
        translations(Text::PasteIntoComposition)@[column(Language::En)]@ == "Paste into composition"@,
        translations(Text::SectionResize)@[column(Language::En)]@ == "Resize"@,
        translations(Text::StretchWidth)@[column(Language::En)]@ == "Width"@,
        translations(Text::StretchHeight)@[column(Language::En)]@ == "Height"@,
        translations(Text::ResetStretch)@[column(Language::En)]@ == "Reset proportions"@,
        translations(Text::SectionFilters)@[column(Language::En)]@ == "Filters"@,
        translations(Text::Brightness)@[column(Language::En)]@ == "Brightness"@,
        translations(Text::Contrast)@[column(Language::En)]@ == "Contrast"@,
        translations(Text::Saturation)@[column(Language::En)]@ == "Saturation"@,
        translations(Text::Temperature)@[column(Language::En)]@ == "Temperature"@,
        translations(Text::ResetFilters)@[column(Language::En)]@ == "Clear filters"@,
        translations(Text::FramingHint)@[column(Language::En)]@ == "Right-click the preview for framing."@,
        translations(Text::ResetFraming)@[column(Language::En)]@ == "Reset"@,
        translations(Text::ConfigSaved)@[column(Language::En)]@ == "Settings saved."@,
        translations(Text::ConfigSavedApplied)@[column(Language::En)]@ == "Settings saved. Wallpaper applied."@,
        translations(Text::CannotOpenVideo)@[column(Language::En)]@ == "Could not open the video"@,
        translations(Text::CannotSave)@[column(Language::En)]@ == "Could not save"@,
        translations(Text::CannotChangeStartup)@[column(Language::En)]@ == "Could not change startup"@,
        translations(Text::PreparingVideo)@[column(Language::En)]@ == "Preparing the video…"@,
        translations(Text::NotOptimized)@[column(Language::En)]@ == "Not optimized"@,
        translations(Text::SavedButNoEngine)@[column(Language::En)]@ == "Saved, but could not start the engine"@,
        translations(Text::TransitionPreviewHint)@[column(Language::En)]@ == "Pick a transition to see it here"@,
        translations(Text::ImportInterrupted)@[column(Language::En)]@ == "Video preparation was interrupted."@,
        translations(Text::FilterMedia)@[column(Language::En)]@ == "Videos and images"@,
        translations(Text::FilterAll)@[column(Language::En)]@ == "All files"@,
        translations(Text::SavedButNoPoster)@[column(Language::En)]@ == "Saved, but without a static frame"@,
{
}

/// Every interface text, as it reads in Spanish: each key gives its own wording.
pub proof fn spanish_wording()
    ensures
        translations(Text::PauseBattery)@[column(Language::Es)]@ == "Pausar con batería"@,
        translations(Text::PauseEnergySaver)@[column(Language::Es)]@ == "Pausar en ahorro de energía"@,
        translations(Text::Search)@[column(Language::Es)]@ == "Buscar fondos…"@,
        translations(Text::Favorites)@[column(Language::Es)]@ == "Favoritos"@,
        translations(Text::Storage)@[column(Language::Es)]@ == "Espacio y limpieza…"@,
        translations(Text::Diagnostics)@[column(Language::Es)]@ == "Diagnóstico…"@,
        translations(Text::RemoveLibrary)@[column(Language::Es)]@ == "Quitar seleccionados de la biblioteca"@,
        translations(Text::SectionSource)@[column(Language::Es)]@ == "Fuente"@,
        translations(Text::SectionFraming)@[column(Language::Es)]@ == "Encuadre"@,
        translations(Text::SectionPlayback)@[column(Language::Es)]@ == "Reproducción"@,
        translations(Text::ChooseVideo)@[column(Language::Es)]@ == "Elegir vídeo…"@,
        translations(Text::Preparing)@[column(Language::Es)]@ == "Preparando el vídeo…"@,
        translations(Text::NoFile)@[column(Language::Es)]@ == "ningún archivo"@,
        translations(Text::RemoveFromMonitor)@[column(Language::Es)]@ == "Quitar de este monitor"@,
        translations(Text::Converting)@[column(Language::Es)]@ == "Convirtiendo a la resolución del monitor"@,
        translations(Text::Zoom)@[column(Language::Es)]@ == "Zoom"@,
        translations(Text::Horizontal)@[column(Language::Es)]@ == "Horizontal"@,
        translations(Text::Vertical)@[column(Language::Es)]@ == "Vertical"@,
        translations(Text::Recenter)@[column(Language::Es)]@ == "Centrar"@,
        translations(Text::Speed)@[column(Language::Es)]@ == "Velocidad"@,
        translations(Text::ModeFill)@[column(Language::Es)]@ == "Rellenar"@,
        translations(Text::ModeFit)@[column(Language::Es)]@ == "Ajustar"@,
        translations(Text::ModeStretch)@[column(Language::Es)]@ == "Estirar"@,
        translations(Text::ModeCenter)@[column(Language::Es)]@ == "Centro"@,
        translations(Text::ModeFree)@[column(Language::Es)]@ == "Libre"@,
        translations(Text::PreviewHint)@[column(Language::Es)]@ == "arrastra para mover  ·  rueda para ampliar  ·  doble clic para editar"@,
        translations(Text::NoVideoChosen)@[column(Language::Es)]@ == "Ningún vídeo elegido para este monitor"@,
        translations(Text::Close)@[column(Language::Es)]@ == "Cerrar"@,
        translations(Text::Apply)@[column(Language::Es)]@ == "Aplicar"@,
        translations(Text::Saved)@[column(Language::Es)]@ == "Guardado"@,
        translations(Text::StartWithWindows)@[column(Language::Es)]@ == "Iniciar con Windows"@,
        translations(Text::CloseToTray)@[column(Language::Es)]@ == "Cerrar a la bandeja"@,
        translations(Text::PauseFullscreen)@[column(Language::Es)]@ == "Pausar en pantalla completa"@,
        translations(Text::OptimizeOnImport)@[column(Language::Es)]@ == "Optimizar al importar"@,
        translations(Text::LanguageLabel)@[column(Language::Es)]@ == "Idioma"@,
        translations(Text::PickerTitle)@[column(Language::Es)]@ == "Elegir vídeo"@,
        translations(Text::SequenceSettings)@[column(Language::Es)]@ == "Transición y tiempo"@,
        translations(Text::SequenceTitle)@[column(Language::Es)]@ == "Secuencia"@,
        translations(Text::AddVideo)@[column(Language::Es)]@ == "Añadir vídeo"@,
        translations(Text::NoThumbnail)@[column(Language::Es)]@ == "sin miniatura"@,
        translations(Text::LibraryEmpty)@[column(Language::Es)]@ == "Aún no hay vídeos importados. Usa el espacio vacío para añadir el primero."@,
        translations(Text::OneImported)@[column(Language::Es)]@ == "1 vídeo importado"@,
        translations(Text::ManyImported)@[column(Language::Es)]@ == "{} vídeos importados"@,
        translations(Text::OneInSequence)@[column(Language::Es)]@ == "1 fondo en la lista"@,
        translations(Text::ManyInSequence)@[column(Language::Es)]@ == "{} fondos en secuencia"@,
        translations(Text::Save)@[column(Language::Es)]@ == "Guardar"@,
        translations(Text::TransitionTitle)@[column(Language::Es)]@ == "Transición"@,
        translations(Text::TransitionNone)@[column(Language::Es)]@ == "Sin transición"@,
        translations(Text::TransitionFade)@[column(Language::Es)]@ == "Fundido"@,
        translations(Text::TransitionLeftRight)@[column(Language::Es)]@ == "Izquierda › derecha"@,
        translations(Text::TransitionRightLeft)@[column(Language::Es)]@ == "Derecha › izquierda"@,
        translations(Text::TransitionTopBottom)@[column(Language::Es)]@ == "Arriba › abajo"@,
        translations(Text::TransitionBottomTop)@[column(Language::Es)]@ == "Abajo › arriba"@,
        translations(Text::TransitionRebuild)@[column(Language::Es)]@ == "Reconstrucción"@,
        translations(Text::TransitionMorph)@[column(Language::Es)]@ == "Transformar"@,
        translations(Text::TimerTitle)@[column(Language::Es)]@ == "Temporizador"@,
        translations(Text::TimerHint)@[column(Language::Es)]@ == "Cuánto tiempo permanece cada fondo antes del siguiente."@,
        translations(Text::UnitLoops)@[column(Language::Es)]@ == "Repeticiones"@,
        translations(Text::UnitSeconds)@[column(Language::Es)]@ == "Segundos"@,
        translations(Text::LoopsOfVideo)@[column(Language::Es)]@ == "Repeticiones del vídeo"@,
        translations(Text::TimeOnScreen)@[column(Language::Es)]@ == "Tiempo en pantalla"@,
        translations(Text::ApplyToAll)@[column(Language::Es)]@ == "Definir para todos"@,
        translations(Text::AllSources)@[column(Language::Es)]@ == "Todas las fuentes"@,
        translations(Text::NoSources)@[column(Language::Es)]@ == "Todavía no hay fuentes en la secuencia."@,
        translations(Text::UseSchedule)@[column(Language::Es)]@ == "Usar horarios"@,
        translations(Text::ScheduleHint)@[column(Language::Es)]@ == "Cada horario rige hasta que empiece el siguiente, con el reloj del sistema."@,
        translations(Text::AddTime)@[column(Language::Es)]@ == "Añadir horario"@,
        translations(Text::Monitor)@[column(Language::Es)]@ == "Monitor"@,
        translations(Text::SectionLayers)@[column(Language::Es)]@ == "Capas"@,
        translations(Text::LayerBackground)@[column(Language::Es)]@ == "Fondo"@,
        translations(Text::LayersHint)@[column(Language::Es)]@ == "Pega elementos de la biblioteca."@,
        translations(Text::PasteIntoComposition)@[column(Language::Es)]@ == "Pegar en la composición"@,
        translations(Text::SectionResize)@[column(Language::Es)]@ == "Redimensionar"@,
        translations(Text::StretchWidth)@[column(Language::Es)]@ == "Ancho"@,
        translations(Text::StretchHeight)@[column(Language::Es)]@ == "Alto"@,
        translations(Text::ResetStretch)@[column(Language::Es)]@ == "Volver a la proporción"@,
        translations(Text::SectionFilters)@[column(Language::Es)]@ == "Filtros"@,
        translations(Text::Brightness)@[column(Language::Es)]@ == "Brillo"@,
        translations(Text::Contrast)@[column(Language::Es)]@ == "Contraste"@,
        translations(Text::Saturation)@[column(Language::Es)]@ == "Saturación"@,
        translations(Text::Temperature)@[column(Language::Es)]@ == "Temperatura"@,
        translations(Text::ResetFilters)@[column(Language::Es)]@ == "Limpiar filtros"@,
        translations(Text::FramingHint)@[column(Language::Es)]@ == "Clic derecho en la vista para el encuadre."@,
        translations(Text::ResetFraming)@[column(Language::Es)]@ == "Restablecer"@,
        translations(Text::ConfigSaved)@[column(Language::Es)]@ == "Configuración guardada."@,
        translations(Text::ConfigSavedApplied)@[column(Language::Es)]@ == "Configuración guardada. Fondo aplicado."@,
        translations(Text::CannotOpenVideo)@[column(Language::Es)]@ == "No pude abrir el vídeo"@,
        translations(Text::CannotSave)@[column(Language::Es)]@ == "No pude guardar"@,
        translations(Text::CannotChangeStartup)@[column(Language::Es)]@ == "No pude cambiar el inicio"@,
        translations(Text::PreparingVideo)@[column(Language::Es)]@ == "Preparando el vídeo…"@,
        translations(Text::NotOptimized)@[column(Language::Es)]@ == "Sin optimizar"@,
        translations(Text::SavedButNoEngine)@[column(Language::Es)]@ == "Guardado, pero no pude iniciar el motor"@,
        translations(Text::TransitionPreviewHint)@[column(Language::Es)]@ == "Elige una transición para verla aquí"@,
        translations(Text::ImportInterrupted)@[column(Language::Es)]@ == "La preparación del vídeo se interrumpió."@,
        translations(Text::FilterMedia)@[column(Language::Es)]@ == "Vídeos e imágenes"@,
        translations(Text::FilterAll)@[column(Language::Es)]@ == "Todos los archivos"@,
        translations(Text::SavedButNoPoster)@[column(Language::Es)]@ == "Guardado, pero sin fotograma estático"@,
{
}

/// Every interface text, as it reads in Russian: each key gives its own wording.
pub proof fn russian_wording()
    ensures
        translations(Text::PauseBattery)@[column(Language::Ru)]@ == "Пауза от батареи"@,
        translations(Text::PauseEnergySaver)@[column(Language::Ru)]@ == "Пауза при энергосбережении"@,
        translations(Text::Search)@[column(Language::Ru)]@ == "Поиск обоев…"@,
        translations(Text::Favorites)@[column(Language::Ru)]@ == "Избранное"@,
        translations(Text::Storage)@[column(Language::Ru)]@ == "Место и очистка…"@,
        translations(Text::Diagnostics)@[column(Language::Ru)]@ == "Диагностика…"@,
        translations(Text::RemoveLibrary)@[column(Language::Ru)]@ == "Удалить выбранные из библиотеки"@,
        translations(Text::SectionSource)@[column(Language::Ru)]@ == "Источник"@,
        translations(Text::SectionFraming)@[column(Language::Ru)]@ == "Кадрирование"@,
        translations(Text::SectionPlayback)@[column(Language::Ru)]@ == "Воспроизведение"@,
        translations(Text::ChooseVideo)@[column(Language::Ru)]@ == "Выбрать видео…"@,
        translations(Text::Preparing)@[column(Language::Ru)]@ == "Подготовка видео…"@,
        translations(Text::NoFile)@[column(Language::Ru)]@ == "нет файла"@,
        translations(Text::RemoveFromMonitor)@[column(Language::Ru)]@ == "Убрать с этого монитора"@,
        translations(Text::Converting)@[column(Language::Ru)]@ == "Преобразование под разрешение монитора"@,
        translations(Text::Zoom)@[column(Language::Ru)]@ == "Масштаб"@,
        translations(Text::Horizontal)@[column(Language::Ru)]@ == "По горизонтали"@,
        translations(Text::Vertical)@[column(Language::Ru)]@ == "По вертикали"@,
        translations(Text::Recenter)@[column(Language::Ru)]@ == "По центру"@,
        translations(Text::Speed)@[column(Language::Ru)]@ == "Скорость"@,
        translations(Text::ModeFill)@[column(Language::Ru)]@ == "Заполнить"@,
        translations(Text::ModeFit)@[column(Language::Ru)]@ == "Вписать"@,
        translations(Text::ModeStretch)@[column(Language::Ru)]@ == "Растянуть"@,
        translations(Text::ModeCenter)@[column(Language::Ru)]@ == "По центру"@,
        translations(Text::ModeFree)@[column(Language::Ru)]@ == "Свободно"@,
        translations(Text::PreviewHint)@[column(Language::Ru)]@ == "перетащите  ·  колесо для масштаба  ·  двойной клик для правки"@,
        translations(Text::NoVideoChosen)@[column(Language::Ru)]@ == "Для этого монитора видео не выбрано"@,
        translations(Text::Close)@[column(Language::Ru)]@ == "Закрыть"@,
        translations(Text::Apply)@[column(Language::Ru)]@ == "Применить"@,
        translations(Text::Saved)@[column(Language::Ru)]@ == "Сохранено"@,
        translations(Text::StartWithWindows)@[column(Language::Ru)]@ == "Запускать с Windows"@,
        translations(Text::CloseToTray)@[column(Language::Ru)]@ == "Сворачивать в трей"@,
        translations(Text::PauseFullscreen)@[column(Language::Ru)]@ == "Пауза в полноэкранном режиме"@,
        translations(Text::OptimizeOnImport)@[column(Language::Ru)]@ == "Оптимизировать при импорте"@,
        translations(Text::LanguageLabel)@[column(Language::Ru)]@ == "Язык"@,
        translations(Text::PickerTitle)@[column(Language::Ru)]@ == "Выбрать видео"@,
        translations(Text::SequenceSettings)@[column(Language::Ru)]@ == "Переход и время"@,
        translations(Text::SequenceTitle)@[column(Language::Ru)]@ == "Последовательность"@,
        translations(Text::AddVideo)@[column(Language::Ru)]@ == "Добавить видео"@,
        translations(Text::NoThumbnail)@[column(Language::Ru)]@ == "нет эскиза"@,
        translations(Text::LibraryEmpty)@[column(Language::Ru)]@ == "Видео ещё не импортированы. Используйте пустую ячейку, чтобы добавить первое."@,
        translations(Text::OneImported)@[column(Language::Ru)]@ == "1 видео импортировано"@,
        translations(Text::ManyImported)@[column(Language::Ru)]@ == "видео импортировано: {}"@,
        translations(Text::OneInSequence)@[column(Language::Ru)]@ == "1 обои в списке"@,
        translations(Text::ManyInSequence)@[column(Language::Ru)]@ == "обоев в последовательности: {}"@,
        translations(Text::Save)@[column(Language::Ru)]@ == "Сохранить"@,
        translations(Text::TransitionTitle)@[column(Language::Ru)]@ == "Переход"@,
        translations(Text::TransitionNone)@[column(Language::Ru)]@ == "Без перехода"@,
        translations(Text::TransitionFade)@[column(Language::Ru)]@ == "Затухание"@,
        translations(Text::TransitionLeftRight)@[column(Language::Ru)]@ == "Слева направо"@,
        translations(Text::TransitionRightLeft)@[column(Language::Ru)]@ == "Справа налево"@,
        translations(Text::TransitionTopBottom)@[column(Language::Ru)]@ == "Сверху вниз"@,
        translations(Text::TransitionBottomTop)@[column(Language::Ru)]@ == "Снизу вверх"@,
        translations(Text::TransitionRebuild)@[column(Language::Ru)]@ == "Сборка"@,
        translations(Text::TransitionMorph)@[column(Language::Ru)]@ == "Трансформация"@,
        translations(Text::TimerTitle)@[column(Language::Ru)]@ == "Таймер"@,
        translations(Text::TimerHint)@[column(Language::Ru)]@ == "Сколько времени каждые обои остаются на экране."@,
        translations(Text::UnitLoops)@[column(Language::Ru)]@ == "Повторы"@,
        translations(Text::UnitSeconds)@[column(Language::Ru)]@ == "Секунды"@,
        translations(Text::LoopsOfVideo)@[column(Language::Ru)]@ == "Повторов видео"@,
        translations(Text::TimeOnScreen)@[column(Language::Ru)]@ == "Время на экране"@,
        translations(Text::ApplyToAll)@[column(Language::Ru)]@ == "Для всех"@,
        translations(Text::AllSources)@[column(Language::Ru)]@ == "Все источники"@,
        translations(Text::NoSources)@[column(Language::Ru)]@ == "В последовательности пока нет источников."@,
        translations(Text::UseSchedule)@[column(Language::Ru)]@ == "По расписанию"@,
        translations(Text::ScheduleHint)@[column(Language::Ru)]@ == "Каждое время действует до следующего, по системным часам."@,
        translations(Text::AddTime)@[column(Language::Ru)]@ == "Добавить время"@,
        translations(Text::Monitor)@[column(Language::Ru)]@ == "Монитор"@,
        translations(Text::SectionLayers)@[column(Language::Ru)]@ == "Слои"@,
        translations(Text::LayerBackground)@[column(Language::Ru)]@ == "Фон"@,
        translations(Text::LayersHint)@[column(Language::Ru)]@ == "Вставьте элементы из библиотеки."@,
        translations(Text::PasteIntoComposition)@[column(Language::Ru)]@ == "Вставить в композицию"@,
        translations(Text::SectionResize)@[column(Language::Ru)]@ == "Размер"@,
        translations(Text::StretchWidth)@[column(Language::Ru)]@ == "Ширина"@,
        translations(Text::StretchHeight)@[column(Language::Ru)]@ == "Высота"@,
        translations(Text::ResetStretch)@[column(Language::Ru)]@ == "Вернуть пропорции"@,
        translations(Text::SectionFilters)@[column(Language::Ru)]@ == "Фильтры"@,
        translations(Text::Brightness)@[column(Language::Ru)]@ == "Яркость"@,
        translations(Text::Contrast)@[column(Language::Ru)]@ == "Контраст"@,
        translations(Text::Saturation)@[column(Language::Ru)]@ == "Насыщенность"@,
        translations(Text::Temperature)@[column(Language::Ru)]@ == "Температура"@,
        translations(Text::ResetFilters)@[column(Language::Ru)]@ == "Сбросить фильтры"@,
        translations(Text::FramingHint)@[column(Language::Ru)]@ == "Правый клик по превью — кадрирование."@,
        translations(Text::ResetFraming)@[column(Language::Ru)]@ == "Сбросить"@,
        translations(Text::ConfigSaved)@[column(Language::Ru)]@ == "Настройки сохранены."@,
        translations(Text::ConfigSavedApplied)@[column(Language::Ru)]@ == "Настройки сохранены. Обои применены."@,
        translations(Text::CannotOpenVideo)@[column(Language::Ru)]@ == "Не удалось открыть видео"@,
        translations(Text::CannotSave)@[column(Language::Ru)]@ == "Не удалось сохранить"@,
        translations(Text::CannotChangeStartup)@[column(Language::Ru)]@ == "Не удалось изменить автозапуск"@,
        translations(Text::PreparingVideo)@[column(Language::Ru)]@ == "Подготовка видео…"@,
        translations(Text::NotOptimized)@[column(Language::Ru)]@ == "Без оптимизации"@,
        translations(Text::SavedButNoEngine)@[column(Language::Ru)]@ == "Сохранено, но не удалось запустить движок"@,
        translations(Text::TransitionPreviewHint)@[column(Language::Ru)]@ == "Выберите переход, чтобы увидеть его"@,
        translations(Text::ImportInterrupted)@[column(Language::Ru)]@ == "Подготовка видео была прервана."@,
        translations(Text::FilterMedia)@[column(Language::Ru)]@ == "Видео и изображения"@,
        translations(Text::FilterAll)@[column(Language::Ru)]@ == "Все файлы"@,
        translations(Text::SavedButNoPoster)@[column(Language::Ru)]@ == "Сохранено, но без статичного кадра"@,
{
}

} // verus!
