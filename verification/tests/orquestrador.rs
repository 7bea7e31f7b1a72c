use nucleo::barramento::Aprovacoes;
use nucleo::cli::{EventoAgente, Uso};
use nucleo::erro::Erro;
use nucleo::modelo::{Aprovacao, Decisao, EstadoSessao, TipoMensagem, Trace, MAX_SALTOS};
use nucleo::orquestrador::{
    caminho_ate_pensar, cancelar_muda_estado, checar_destino, estado_apos, mensagem_do_usuario,
    motivo_por_saltos, proximo_salto, recusa_por_orcamento, recusa_por_prazo,
    texto_da_pergunta, texto_da_resposta, texto_de_entrega, vira_regra, Esperas, Filas,
};

#[test]
fn mensagem_vazia_e_recusada_antes_de_gastar_qualquer_coisa() {
    match mensagem_do_usuario("   \n ") {
        Err(Erro::Invalido(m)) => assert_eq!(m, "não dá para mandar mensagem vazia"),
        outro => panic!("veio {outro:?}"),
    }
    assert_eq!(mensagem_do_usuario("  oi  ").unwrap(), "oi");
}

#[test]
fn dois_turnos_ao_mesmo_tempo_no_mesmo_no_viram_fila() {
    let mut filas: Filas<String> = Filas::nova();
    filas.enfileirar("s1", "primeira".to_string());
    filas.enfileirar("s2", "de outro nó".to_string());
    filas.enfileirar("s1", "segunda".to_string());
    assert_eq!(filas.puxar("s1").as_deref(), Some("primeira"));
    assert_eq!(filas.puxar("s1").as_deref(), Some("segunda"));
    assert_eq!(filas.puxar("s1"), None);
    assert_eq!(filas.puxar("s2").as_deref(), Some("de outro nó"));
}

#[test]
fn cancelar_joga_fora_o_que_estava_por_vir() {
    let mut filas: Filas<u32> = Filas::nova();
    filas.enfileirar("s1", 1);
    filas.enfileirar("s1", 2);
    filas.enfileirar("s2", 3);
    filas.descartar("s1");
    assert_eq!(filas.puxar("s1"), None);
    assert_eq!(filas.puxar("s2"), Some(3));
}

#[test]
fn dois_nos_esperando_um_pelo_outro_nao_travam_o_app() {
    let mut esperas = Esperas::nova();
    // A pergunta a B e fica esperando.
    esperas.bloquear("A", "B");
    // B perguntar de volta a A travaria os dois.
    assert!(esperas.fecharia_ciclo("B", "A"));
    match checar_destino("B", "A", TipoMensagem::Pedido, true, "Pesquisador") {
        Err(Erro::Invalido(m)) => assert!(m.contains("parado esperando a SUA resposta"), "{m}"),
        outro => panic!("veio {outro:?}"),
    }
    // Um aviso não espera, e passa.
    assert!(checar_destino("B", "A", TipoMensagem::Aviso, true, "Pesquisador").is_ok());
    // Quem não espera ninguém recebe à vontade.
    assert!(!esperas.fecharia_ciclo("A", "C"));
    // Depois que A recebeu a resposta, B pode perguntar.
    esperas.soltar("A");
    assert!(!esperas.fecharia_ciclo("B", "A"));
}

#[test]
fn a_corrente_de_espera_e_seguida_ate_o_fim() {
    let mut esperas = Esperas::nova();
    esperas.bloquear("A", "B");
    esperas.bloquear("B", "C");
    esperas.bloquear("C", "D");
    assert!(esperas.fecharia_ciclo("D", "A"), "A→B→C→D→A travaria os quatro");
    assert!(!esperas.fecharia_ciclo("E", "A"));
    assert_eq!(esperas.esperado_por("B").as_deref(), Some("C"));
    assert_eq!(esperas.esperado_por("D"), None);
}

#[test]
fn um_no_nao_fala_consigo_mesmo() {
    match checar_destino("s1", "s1", TipoMensagem::Aviso, false, "Eu") {
        Err(Erro::Invalido(m)) => assert_eq!(m, "um nó não fala consigo mesmo"),
        outro => panic!("veio {outro:?}"),
    }
}

#[test]
fn a_cadeia_encerrada_diz_por_que() {
    let mut t = Trace::novo();
    for _ in 0..MAX_SALTOS {
        t = proximo_salto(&t).unwrap();
    }
    match proximo_salto(&t) {
        Err(Erro::Invalido(m)) => assert_eq!(
            m,
            "esta cadeia já deu 6 saltos entre nós e foi encerrada. Responda com o que você já tem."
        ),
        outro => panic!("veio {outro:?}"),
    }
    assert_eq!(motivo_por_saltos(), "a conversa entre nós passou de 6 saltos");
    assert!(recusa_por_orcamento().mensagem().contains("orçamento"));
    assert_eq!(recusa_por_prazo(600_000).mensagem(), "o nó não respondeu em 10 minutos");
}

#[test]
fn a_resposta_e_o_texto_final_ou_o_que_veio_em_pedacos() {
    assert_eq!(texto_da_resposta("  ", "Li o material sobre o documento."), "Li o material sobre o documento.");
    assert_eq!(texto_da_resposta("final", "pedaços"), "final");
}

#[test]
fn perguntar_humano_mostra_as_opcoes() {
    assert_eq!(texto_da_pergunta("Qual prazo?", &vec![]), "Qual prazo?");
    assert_eq!(
        texto_da_pergunta("Qual prazo?", &vec!["12 meses".into(), "18 meses".into()]),
        "Qual prazo?\n\n(12 meses · 18 meses)"
    );
}

#[test]
fn concluir_vira_linha_na_conversa() {
    assert_eq!(texto_de_entrega("minuta revisada, 3 pontos abertos"), "Entregue: minuta revisada, 3 pontos abertos");
}

#[test]
fn erro_do_agente_deixa_o_no_pedindo_atencao_e_aceita_turno_novo() {
    let e = EventoAgente::Erro { mensagem: "x".into(), recuperavel: true };
    let s = estado_apos(&e).unwrap();
    assert_eq!(s, EstadoSessao::Erro);
    assert!(s.pede_atencao() && s.aceita_turno());
    let fim = EventoAgente::TurnoConcluido {
        texto_final: "ok".into(),
        uso: Uso { tokens_entrada: 0, tokens_saida: 0, custo_usd: None },
    };
    assert_eq!(estado_apos(&fim), Some(EstadoSessao::Ocioso));
    assert_eq!(
        estado_apos(&EventoAgente::PrecisaHumano { pergunta: "?".into() }),
        Some(EstadoSessao::AguardandoHumano)
    );
    assert_eq!(estado_apos(&EventoAgente::TextoParcial { delta: "d".into() }), None);
}

#[test]
fn mandar_mensagem_a_um_no_em_erro_passa_por_ocioso() {
    assert_eq!(caminho_ate_pensar(EstadoSessao::Erro), Some(vec![EstadoSessao::Ocioso, EstadoSessao::Pensando]));
    assert_eq!(caminho_ate_pensar(EstadoSessao::Ocioso), Some(vec![EstadoSessao::Pensando]));
    assert_eq!(caminho_ate_pensar(EstadoSessao::Pensando), None, "ocupado: a mensagem espera na fila");
}

#[test]
fn cancelar_fecha_os_cards_abertos_e_duas_vezes_nao_estraga_nada() {
    let mut aprovacoes = Aprovacoes::nova();
    let c1 = aprovacoes.registrar("s1:c1");
    let outro = aprovacoes.registrar("s2:c2");
    let c3 = aprovacoes.registrar("s1:c3");
    assert_eq!(aprovacoes.negar_da_sessao("s1"), vec!["s1:c1".to_string(), "s1:c3".to_string()]);
    assert_eq!(c1.try_recv().unwrap(), Decisao::Negada);
    assert_eq!(c3.try_recv().unwrap(), Decisao::Negada);
    assert!(outro.try_recv().is_err());
    assert_eq!(aprovacoes.quantas_esperando(), 1);
    assert!(aprovacoes.negar_da_sessao("s1").is_empty());
    assert!(!aprovacoes.responder("s1:c1", Decisao::Aprovada));
    assert!(!cancelar_muda_estado(EstadoSessao::Ocioso));
    assert!(cancelar_muda_estado(EstadoSessao::AguardandoNo));
}

#[test]
fn nao_perguntar_de_novo_so_vale_para_o_sim() {
    assert!(vira_regra(true, Decisao::Aprovada));
    assert!(!vira_regra(true, Decisao::Negada));
    assert!(!vira_regra(false, Decisao::Aprovada));
}
